use crate::decimal::{decimal, decimal_nat, integer_to_string, lemma_decimal_injective, lemma_decimal_nat_digits, lemma_decimal_nat_injective, natural_to_string};
use vstd::prelude::*;
use vstd::string::StrSliceExecFns;
use vstd::string::StringExecFns;

verus! {

/// The directory that holds the chunk files of one upload session:
/// the session's id below the storage folder.
pub open spec fn upload_dir_path(storage_folder: Seq<char>, upload_id: Seq<char>) -> Seq<char> {
    storage_folder + seq!['/'] + upload_id
}

/// Where an uploaded file is to be stored if no file is there yet: under its
/// own name in the storage folder.
pub open spec fn destination_path(storage_folder: Seq<char>, file_name: Seq<char>) -> Seq<char> {
    storage_folder + seq!['/'] + file_name
}

/// The name of a chunk file without its number, with the separator before it.
pub open spec fn chunk_file_prefix() -> Seq<char> {
    seq!['/', 'c', 'h', 'u', 'n', 'k', '_']
}

/// The file of one chunk: `chunk_` and the chunk's number, below the
/// session's directory.
pub open spec fn chunk_file_path(upload_dir: Seq<char>, chunk_number: int) -> Seq<char> {
    upload_dir + chunk_file_prefix() + decimal(chunk_number)
}

/// Two chunks of one session with different numbers have different files.
pub proof fn lemma_chunk_files_distinct(upload_dir: Seq<char>, a: int, b: int)
    requires
        a != b,
    ensures
        chunk_file_path(upload_dir, a) != chunk_file_path(upload_dir, b),
{
    let head = upload_dir + chunk_file_prefix();
    let pa = chunk_file_path(upload_dir, a);
    let pb = chunk_file_path(upload_dir, b);
    if pa == pb {
        assert(pa.subrange(head.len() as int, pa.len() as int) =~= decimal(a));
        assert(pb.subrange(head.len() as int, pb.len() as int) =~= decimal(b));
        lemma_decimal_injective(a, b);
    }
}

/// The directory of an upload session below the storage folder.
pub fn upload_dir(storage_folder: &String, upload_id: &String) -> (dir: String)
    ensures
        dir@ == upload_dir_path(storage_folder@, upload_id@),
{
    let mut dir = storage_folder.clone();
    proof {
        reveal_strlit("/");
    }
    dir.append("/");
    dir.append(upload_id.as_str());
    assert(dir@ =~= upload_dir_path(storage_folder@, upload_id@));
    dir
}

/// The path under which an uploaded file is stored if it is free.
pub fn destination(storage_folder: &String, file_name: &String) -> (path: String)
    ensures
        path@ == destination_path(storage_folder@, file_name@),
{
    let mut path = storage_folder.clone();
    proof {
        reveal_strlit("/");
    }
    path.append("/");
    path.append(file_name.as_str());
    assert(path@ =~= destination_path(storage_folder@, file_name@));
    path
}

/// The file of the chunk with the given number below a session's directory.
pub fn get_chunk_file(upload_dir: &String, chunk_number: i32) -> (path: String)
    ensures
        path@ == chunk_file_path(upload_dir@, chunk_number as int),
{
    let mut path = upload_dir.clone();
    proof {
        reveal_strlit("/chunk_");
    }
    path.append("/chunk_");
    let number = integer_to_string(chunk_number as i64);
    path.append(number.as_str());
    assert(path@ =~= chunk_file_path(upload_dir@, chunk_number as int));
    path
}

/// The index of the last occurrence of a character, or -1 where there is none.
pub open spec fn last_index_of(s: Seq<char>, c: char) -> int
    decreases s.len(),
{
    if s.len() == 0 {
        -1
    } else if s.last() == c {
        s.len() - 1
    } else {
        last_index_of(s.drop_last(), c)
    }
}

/// `last_index_of` is -1 or the index of an occurrence after which there is
/// no other.
pub proof fn lemma_last_index_of(s: Seq<char>, c: char)
    ensures
        -1 <= last_index_of(s, c) < s.len(),
        last_index_of(s, c) >= 0 ==> s[last_index_of(s, c)] == c,
        forall|j: int| last_index_of(s, c) < j < s.len() ==> s[j] != c,
    decreases s.len(),
{
    if s.len() > 0 && s.last() != c {
        let front = s.drop_last();
        lemma_last_index_of(front, c);
        assert forall|j: int| last_index_of(s, c) < j < s.len() implies s[j] != c by {
            if j < front.len() {
                assert(front[j] == s[j]);
            }
        }
    }
}

/// Where the file name begins: after the last slash.
pub open spec fn name_start(path: Seq<char>) -> int {
    last_index_of(path, '/') + 1
}

/// Where the extension begins: at the last dot of the file name, unless that
/// dot is the name's first character; at the end where there is no extension.
pub open spec fn extension_start(path: Seq<char>) -> int {
    let start = name_start(path);
    let dot = last_index_of(path.subrange(start, path.len() as int), '.');
    if dot <= 0 {
        path.len() as int
    } else {
        start + dot
    }
}

/// The path with a counter in brackets between the file's stem and its
/// extension.
pub open spec fn numbered_path(path: Seq<char>, counter: nat) -> Seq<char> {
    let split = extension_start(path);
    path.subrange(0, split) + seq!['('] + decimal_nat(counter) + seq![')'] + path.subrange(
        split,
        path.len() as int,
    )
}

/// The name tried at a given attempt: the path itself first, then the path
/// numbered by the attempt.
pub open spec fn candidate_path(path: Seq<char>, attempt: nat) -> Seq<char> {
    if attempt == 0 {
        path
    } else {
        numbered_path(path, attempt)
    }
}

/// No two attempts try the same name.
pub proof fn lemma_candidates_distinct(path: Seq<char>, a: nat, b: nat)
    requires
        a != b,
    ensures
        candidate_path(path, a) != candidate_path(path, b),
{
    lemma_last_index_of(path, '/');
    lemma_last_index_of(path.subrange(name_start(path), path.len() as int), '.');
    let split = extension_start(path);
    let head = path.subrange(0, split) + seq!['('];
    let tail = seq![')'] + path.subrange(split, path.len() as int);
    lemma_decimal_nat_digits(a);
    lemma_decimal_nat_digits(b);
    if a != 0 && b != 0 {
        let pa = numbered_path(path, a);
        let pb = numbered_path(path, b);
        if pa == pb {
            assert(pa =~= head + decimal_nat(a) + tail);
            assert(pb =~= head + decimal_nat(b) + tail);
            assert(decimal_nat(a).len() == decimal_nat(b).len());
            assert(pa.subrange(head.len() as int, (head.len() + decimal_nat(a).len()) as int)
                =~= decimal_nat(a));
            assert(pb.subrange(head.len() as int, (head.len() + decimal_nat(b).len()) as int)
                =~= decimal_nat(b));
            lemma_decimal_nat_injective(a, b);
        }
    } else if a != 0 {
        assert(numbered_path(path, a).len() > path.len());
    } else {
        assert(numbered_path(path, b).len() > path.len());
    }
}

fn last_index(s: &str, c: char) -> (index: Option<usize>)
    ensures
        match index {
            Some(i) => i as int == last_index_of(s@, c),
            None => last_index_of(s@, c) == -1,
        },
{
    let len = s.unicode_len();
    let mut i: usize = len;
    proof {
        assert(s@.subrange(0, len as int) =~= s@);
    }
    while i > 0
        invariant
            i <= len,
            len == s@.len(),
            last_index_of(s@, c) == last_index_of(s@.subrange(0, i as int), c),
        decreases i,
    {
        let ghost prefix = s@.subrange(0, i as int);
        if s.get_char(i - 1) == c {
            assert(prefix.last() == c);
            return Some(i - 1);
        }
        assert(prefix.drop_last() =~= s@.subrange(0, i - 1));
        i = i - 1;
    }
    None
}

/// Finds where the extension of a path begins.
pub fn split_extension(path: &str) -> (split: usize)
    ensures
        split as int == extension_start(path@),
        split <= path@.len(),
{
    let len = path.unicode_len();
    proof {
        lemma_last_index_of(path@, '/');
    }
    let start: usize = match last_index(path, '/') {
        Some(slash) => slash + 1,
        None => 0,
    };
    let name = path.substring_char(start, len);
    proof {
        lemma_last_index_of(name@, '.');
    }
    match last_index(name, '.') {
        Some(dot) => if dot == 0 {
            len
        } else {
            start + dot
        },
        None => len,
    }
}

/// The name to try at the given attempt when looking for a file name that is
/// not taken: the path itself at attempt 0, then `stem(1).ext`, `stem(2).ext`
/// and so on beside it.
pub fn get_available_filename(path: &String, attempt: u32) -> (candidate: String)
    ensures
        candidate@ == candidate_path(path@, attempt as nat),
{
    if attempt == 0 {
        return path.clone();
    }
    let whole = path.as_str();
    let len = whole.unicode_len();
    let split = split_extension(whole);
    let mut candidate = String::from_str(whole.substring_char(0, split));
    proof {
        reveal_strlit("(");
        reveal_strlit(")");
    }
    candidate.append("(");
    let number = natural_to_string(attempt as u64);
    candidate.append(number.as_str());
    candidate.append(")");
    candidate.append(whole.substring_char(split, len));
    assert(candidate@ =~= numbered_path(path@, attempt as nat));
    candidate
}

} // verus!
