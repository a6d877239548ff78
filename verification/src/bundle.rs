//! Building test cases from file contents and random fields.

use vstd::prelude::*;
use crate::multi::{BytesInput, MultiInput};
use crate::outside::fill_bytes;

verus! {

/// Number of bytes of a random field.
pub const RANDOM_FIELD_LEN: usize = 8192;

/// Where the fields of a test case come from.
#[derive(Debug)]
pub enum TestcaseSrc {
    /// The contents of the files of one directory, one test case for each.
    Files(Vec<BytesInput>),
    /// Random bytes.
    Rand,
}

/// How many of `sources` are file sources.
pub open spec fn count_files(sources: Seq<TestcaseSrc>) -> nat
    decreases sources.len(),
{
    if sources.len() == 0 {
        0
    } else {
        count_files(sources.drop_last()) + if sources.last() is Files {
            1nat
        } else {
            0nat
        }
    }
}

/// Index of the first file source among `sources`: their number where there
/// is none.
pub open spec fn first_files(sources: Seq<TestcaseSrc>) -> int
    decreases sources.len(),
{
    if sources.len() == 0 {
        0
    } else if sources.first() is Files {
        0
    } else {
        1 + first_files(sources.drop_first())
    }
}

/// Whether `case` is a test case for `sources` whose fields are all random.
pub open spec fn is_random_case(case: MultiInput, sources: Seq<TestcaseSrc>) -> bool {
    &&& case.fields@.len() == sources.len()
    &&& forall|j: int|
        0 <= j < case.fields@.len() ==> (#[trigger] case.fields@[j])@.len() == RANDOM_FIELD_LEN
}

/// Whether `case` is a test case for `sources` that holds `content` as its
/// first field and random bytes in the others.
pub open spec fn is_file_case(case: MultiInput, sources: Seq<TestcaseSrc>, content: Seq<u8>)
    -> bool {
    &&& case.fields@.len() == sources.len()
    &&& case.fields@.len() > 0
    &&& case.fields@[0]@ == content
    &&& forall|j: int|
        0 < j < case.fields@.len() ==> (#[trigger] case.fields@[j])@.len() == RANDOM_FIELD_LEN
}

/// A field of [`RANDOM_FIELD_LEN`] random bytes.
pub fn generate_field() -> (field: BytesInput)
    ensures
        field@.len() == RANDOM_FIELD_LEN,
{
    let mut rng = rand::thread_rng();
    let mut v: Vec<u8> = vec![0u8; 8192];
    fill_bytes(&mut rng, &mut v);
    BytesInput::new(v)
}

/// As many random fields as there are `sources`.
fn generate_fields(sources: &Vec<TestcaseSrc>) -> (fields: Vec<BytesInput>)
    ensures
        fields@.len() == sources@.len(),
        forall|j: int| 0 <= j < fields@.len() ==> (#[trigger] fields@[j])@.len() == RANDOM_FIELD_LEN,
{
    let mut fields: Vec<BytesInput> = Vec::new();
    let mut j: usize = 0;
    while j < sources.len()
        invariant
            0 <= j <= sources@.len(),
            fields@.len() == j,
            forall|k: int| 0 <= k < j ==> (#[trigger] fields@[k])@.len() == RANDOM_FIELD_LEN,
        decreases sources@.len() - j,
    {
        fields.push(generate_field());
        j += 1;
    }
    fields
}

/// Index of the first file source among `sources`, if there is one.
pub fn find_files(sources: &Vec<TestcaseSrc>) -> (r: Option<usize>)
    ensures
        r is Some <==> count_files(sources@) > 0,
        r is Some ==> r->0 == first_files(sources@) && r->0 < sources@.len() && sources@[r->0 as int]
            is Files,
        r is None ==> first_files(sources@) == sources@.len(),
{
    let mut i: usize = 0;
    while i < sources.len()
        invariant
            0 <= i <= sources@.len(),
            forall|k: int| 0 <= k < i ==> !(#[trigger] sources@[k] is Files),
        decreases sources@.len() - i,
    {
        if let TestcaseSrc::Files(_) = &sources[i] {
            proof {
                lemma_first_files(sources@, i as int);
                lemma_count_files_some(sources@, i as int);
            }
            return Some(i);
        }
        i += 1;
    }
    proof {
        lemma_first_files(sources@, sources@.len() as int);
        lemma_count_files_none(sources@);
    }
    None
}

/// Builds the test cases for `sources`. With a file source, one test case for
/// each of its files: the file's content is the first field, the other fields
/// are random. Without one, `numtests` test cases of random fields. Each test
/// case has one field for each source.
pub fn combine_and_or_generate(sources: &Vec<TestcaseSrc>, numtests: u32) -> (cases: Vec<
    MultiInput,
>)
    requires
        count_files(sources@) <= 1,
    ensures
        count_files(sources@) == 0 ==> {
            &&& cases@.len() == numtests
            &&& forall|i: int| 0 <= i < cases@.len() ==> is_random_case(#[trigger] cases@[i], sources@)
        },
        count_files(sources@) == 1 ==> {
            let contents = sources@[first_files(sources@)]->Files_0;
            &&& cases@.len() == contents@.len()
            &&& forall|i: int|
                0 <= i < cases@.len() ==> is_file_case(#[trigger] cases@[i], sources@, contents@[i]@)
        },
{
    let mut cases: Vec<MultiInput> = Vec::new();
    match find_files(sources) {
        Some(at) => {
            if let TestcaseSrc::Files(contents) = &sources[at] {
                let mut i: usize = 0;
                while i < contents.len()
                    invariant
                        0 <= i <= contents@.len(),
                        sources@.len() > 0,
                        cases@.len() == i,
                        forall|k: int|
                            0 <= k < i ==> is_file_case(#[trigger] cases@[k], sources@, contents@[k]@),
                    decreases contents@.len() - i,
                {
                    let mut fields = generate_fields(sources);
                    fields.set(0, contents[i].clone());
                    cases.push(MultiInput::new(fields));
                    i += 1;
                }
            }
        },
        None => {
            let mut i: u32 = 0;
            while i < numtests
                invariant
                    0 <= i <= numtests,
                    cases@.len() == i,
                    forall|k: int| 0 <= k < i ==> is_random_case(#[trigger] cases@[k], sources@),
                decreases numtests - i,
            {
                cases.push(MultiInput::new(generate_fields(sources)));
                i += 1;
            }
        },
    }
    cases
}

/// Where no source before `n` is a file source, the first file source is at
/// `n` if that is one, and there is none if `n` is the number of sources.
proof fn lemma_first_files(sources: Seq<TestcaseSrc>, n: int)
    requires
        0 <= n <= sources.len(),
        forall|k: int| 0 <= k < n ==> !(#[trigger] sources[k] is Files),
        n < sources.len() ==> sources[n] is Files,
    ensures
        first_files(sources) == n,
    decreases n,
{
    if n > 0 {
        let rest = sources.drop_first();
        assert forall|k: int| 0 <= k < n - 1 implies !(#[trigger] rest[k] is Files) by {
            assert(rest[k] == sources[k + 1]);
        }
        lemma_first_files(rest, n - 1);
    }
}

/// Sources of which one is a file source count at least one.
proof fn lemma_count_files_some(sources: Seq<TestcaseSrc>, at: int)
    requires
        0 <= at < sources.len(),
        sources[at] is Files,
    ensures
        count_files(sources) > 0,
    decreases sources.len(),
{
    if at < sources.len() - 1 {
        lemma_count_files_some(sources.drop_last(), at);
    }
}

/// Sources of which none is a file source count none.
proof fn lemma_count_files_none(sources: Seq<TestcaseSrc>)
    requires
        forall|k: int| 0 <= k < sources.len() ==> !(#[trigger] sources[k] is Files),
    ensures
        count_files(sources) == 0,
    decreases sources.len(),
{
    if sources.len() > 0 {
        lemma_count_files_none(sources.drop_last());
    }
}

} // verus!
