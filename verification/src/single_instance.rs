use vstd::prelude::*;

verus! {

/// What another start of the program hands over to the running one: its
/// command line.
#[derive(Debug)]
pub struct OpenRequest {
    pub args: Vec<String>,
}

impl Default for OpenRequest {
    fn default() -> (request: OpenRequest)
        ensures
            request.args@.len() == 0,
    {
        OpenRequest { args: Vec::new() }
    }
}

/// The views of a list of strings.
pub open spec fn texts(list: Seq<String>) -> Seq<Seq<char>> {
    list.map_values(|text: String| text@)
}

impl OpenRequest {
    /// The files to share: every argument but the first, which names the
    /// program.
    pub fn files(&self) -> (files: Vec<String>)
        ensures
            texts(files@) == if self.args@.len() > 1 {
                texts(self.args@).subrange(1, self.args@.len() as int)
            } else {
                Seq::<Seq<char>>::empty()
            },
    {
        let mut files: Vec<String> = Vec::new();
        if self.args.len() <= 1 {
            assert(texts(files@) =~= Seq::<Seq<char>>::empty());
            return files;
        }
        let mut seen: usize = 1;
        assert(texts(files@) =~= texts(self.args@).subrange(1, 1));
        while seen < self.args.len()
            invariant
                1 <= seen <= self.args.len(),
                texts(files@) == texts(self.args@).subrange(1, seen as int),
            decreases self.args.len() - seen,
        {
            let ghost before = texts(files@);
            files.push(self.args[seen].clone());
            assert(texts(files@) =~= before.push(self.args@[seen as int]@));
            assert(texts(files@) =~= texts(self.args@).subrange(1, seen + 1));
            seen = seen + 1;
        }
        files
    }
}

} // verus!
