use sha2::Digest;
use vstd::prelude::*;
use vstd::slice::slice_subrange;
use vstd::string::StringExecFns;

verus! {

/// The lowercase hexadecimal SHA-256 digest of a byte sequence.
pub uninterp spec fn sha256_hex(bytes: Seq<u8>) -> Seq<char>;

/// The bytes that a running SHA-256 computation has taken in so far, in order.
pub uninterp spec fn absorbed(state: Sha256State) -> Seq<u8>;

/// The state of a running SHA-256 computation of the `sha2` crate. The
/// crate's own type is generic over traits that Verus cannot be told of, so
/// it is held in a struct whose inside Verus does not look at.
#[verifier::external_body]
pub struct Sha256State {
    inner: sha2::Sha256,
}

/// `sha2::Sha256::new`: a fresh computation has taken in nothing.
#[verifier::external_body]
fn sha256_start() -> (state: Sha256State)
    ensures
        absorbed(state) == Seq::<u8>::empty(),
{
    Sha256State { inner: sha2::Sha256::new() }
}

/// `sha2::Digest::update`: the block is appended to what was taken in before.
#[verifier::external_body]
fn sha256_absorb(state: &mut Sha256State, block: &[u8])
    ensures
        absorbed(*final(state)) == absorbed(*old(state)) + block@,
{
    state.inner.update(block)
}

/// `sha2::Digest::finalize`, printed with `{:x}`: the lowercase hexadecimal
/// digest of everything that was taken in.
#[verifier::external_body]
fn sha256_finish(state: Sha256State) -> (hex: String)
    ensures
        hex@ == sha256_hex(absorbed(state)),
{
    format!("{:x}", state.inner.finalize())
}

/// How many bytes `compute_file_hash` hands to the hasher at a time.
pub const HASH_BLOCK_SIZE: usize = 8192;

/// A streaming SHA-256 over the blocks of one file. Its view is the
/// concatenation of the blocks fed so far.
pub struct FileHasher {
    state: Sha256State,
}

impl View for FileHasher {
    type V = Seq<u8>;

    closed spec fn view(&self) -> Seq<u8> {
        absorbed(self.state)
    }
}

impl FileHasher {
    pub fn new() -> (hasher: FileHasher)
        ensures
            hasher@ == Seq::<u8>::empty(),
    {
        FileHasher { state: sha256_start() }
    }

    /// Feeds the next block of the file.
    pub fn update(&mut self, block: &[u8])
        ensures
            final(self)@ == old(self)@ + block@,
    {
        sha256_absorb(&mut self.state, block);
    }

    /// Ends the computation with the digest of all blocks fed.
    pub fn finalize(self) -> (hex: String)
        ensures
            hex@ == sha256_hex(self@),
    {
        sha256_finish(self.state)
    }
}

/// The SHA-256 digest of a file's content, computed block by block.
pub fn compute_file_hash(content: &[u8]) -> (hex: String)
    ensures
        hex@ == sha256_hex(content@),
{
    let mut hasher = FileHasher::new();
    let mut done: usize = 0;
    while done < content.len()
        invariant
            done <= content.len(),
            hasher@ == content@.subrange(0, done as int),
        decreases content.len() - done,
    {
        let left: usize = content.len() - done;
        let take: usize = if left < HASH_BLOCK_SIZE { left } else { HASH_BLOCK_SIZE };
        let block = slice_subrange(content, done, done + take);
        hasher.update(block);
        assert(content@.subrange(0, done as int) + content@.subrange(done as int, done + take)
            =~= content@.subrange(0, done + take));
        done = done + take;
    }
    assert(content@.subrange(0, done as int) =~= content@);
    hasher.finalize()
}

/// Whether a file's content has the expected digest.
pub fn check_file_hash(content: &[u8], expected_hash: &String) -> (same: bool)
    ensures
        same == (sha256_hex(content@) == expected_hash@),
{
    let file_hash = compute_file_hash(content);
    file_hash == *expected_hash
}

/// The outcome of checking a file against an expected digest.
#[derive(Debug)]
pub enum CheckFileResult {
    Valid,
    Invalid(String),
}

/// The reason given for a file that is absent.
pub open spec fn not_found_reason() -> Seq<char> {
    "File not found"@
}

/// The reason given for a file whose digest differs from the expected one.
pub open spec fn mismatch_reason(expected: Seq<char>, actual: Seq<char>) -> Seq<char> {
    "Hash mismatch: expected "@ + expected + ", actual "@ + actual
}

/// Whether a result is the one due to a file with the given digest (`None`
/// where there is no file): valid exactly for a file with the expected
/// digest, else invalid with the reason.
pub open spec fn digest_verdict(
    actual: Option<Seq<char>>,
    expected: Seq<char>,
    result: CheckFileResult,
) -> bool {
    match actual {
        None => result matches CheckFileResult::Invalid(reason) && reason@ == not_found_reason(),
        Some(hash) => if hash == expected {
            result is Valid
        } else {
            result matches CheckFileResult::Invalid(reason) && reason@ == mismatch_reason(expected, hash)
        },
    }
}

/// Judges a file by its digest (`None` where there is no file).
pub fn check_digest(actual: &Option<String>, expected_hash: &String) -> (result: CheckFileResult)
    ensures
        digest_verdict(
            match *actual { Some(hash) => Some(hash@), None => None },
            expected_hash@,
            result,
        ),
{
    match actual {
        None => CheckFileResult::Invalid(String::from_str("File not found")),
        Some(hash) => {
            if *hash == *expected_hash {
                CheckFileResult::Valid
            } else {
                let mut reason = String::from_str("Hash mismatch: expected ");
                reason.append(expected_hash.as_str());
                reason.append(", actual ");
                reason.append(hash.as_str());
                CheckFileResult::Invalid(reason)
            }
        },
    }
}

/// Judges a file by its content (`None` where there is no file).
pub fn check_file(content: Option<&[u8]>, expected_hash: &String) -> (result: CheckFileResult)
    ensures
        digest_verdict(
            match content { Some(bytes) => Some(sha256_hex(bytes@)), None => None },
            expected_hash@,
            result,
        ),
{
    let actual = match content {
        Some(bytes) => Some(compute_file_hash(bytes)),
        None => None,
    };
    check_digest(&actual, expected_hash)
}

/// A file is valid against the digest of its own content. Any other
/// content, such as the same with a byte changed, is valid against that
/// digest exactly when SHA-256 gives both the same digest.
pub proof fn lemma_check_file_accepts_own_digest(
    bytes: Seq<u8>,
    other: Seq<u8>,
    result: CheckFileResult,
    other_result: CheckFileResult,
)
    requires
        digest_verdict(Some(sha256_hex(bytes)), sha256_hex(bytes), result),
        digest_verdict(Some(sha256_hex(other)), sha256_hex(bytes), other_result),
    ensures
        result is Valid,
        other_result is Valid <==> sha256_hex(other) == sha256_hex(bytes),
{
}

} // verus!
