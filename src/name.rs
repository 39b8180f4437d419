use vstd::prelude::*;

verus! {

/// Number of random characters in a candidate name.
pub const RANDOM_LEN: usize = 6;

/// An ASCII digit or letter.
pub open spec fn is_alnum(b: u8) -> bool {
    (48 <= b && b <= 57) || (65 <= b && b <= 90) || (97 <= b && b <= 122)
}

/// Every candidate name starts with `tmp`, which tells temporary files apart.
pub open spec fn name_prefix() -> Seq<u8> {
    seq![116u8, 109u8, 112u8]
}

/// A name of the fixed length over the ASCII digits and letters: the prefix,
/// then `RANDOM_LEN` characters.
pub open spec fn is_candidate(name: Seq<u8>) -> bool {
    &&& name.len() == name_prefix().len() + RANDOM_LEN
    &&& name.subrange(0, name_prefix().len() as int) == name_prefix()
    &&& forall|i: int| 0 <= i < name.len() ==> is_alnum(#[trigger] name[i])
}

/// Relies on rand's `Alphanumeric` distribution sampled from `thread_rng`: one byte
/// drawn uniformly from `A-Z`, `a-z` and `0-9`, independently on each call.
/// (`thread_rng` panics only when the operating system's random source fails,
/// when it seeds or reseeds the generator.)
#[verifier::external_body]
fn random_alnum() -> (r: u8)
    ensures
        is_alnum(r),
{
    rand::Rng::sample(&mut rand::thread_rng(), rand::distributions::Alphanumeric)
}

/// The candidate name made of the prefix followed by the given characters.
pub fn candidate_name(random: &[u8]) -> (r: Vec<u8>)
    ensures
        r@ == name_prefix() + random@,
{
    let mut r: Vec<u8> = Vec::new();
    r.push(116u8);
    r.push(109u8);
    r.push(112u8);
    assert(r@ == name_prefix());
    let mut i: usize = 0;
    while i < random.len()
        invariant
            i <= random@.len(),
            r@ == name_prefix() + random@.subrange(0, i as int),
        decreases random@.len() - i,
    {
        r.push(random[i]);
        i = i + 1;
        assert(random@.subrange(0, i as int) == random@.subrange(0, i - 1) + seq![random@[i - 1]]);
    }
    assert(random@.subrange(0, i as int) == random@);
    r
}

/// A fresh candidate name: the prefix and `RANDOM_LEN` characters drawn at random.
///
/// Nothing is promised of which characters come out, only that the name has the
/// candidate shape, whatever the draws were.
pub fn tmpname() -> (r: Vec<u8>)
    ensures
        is_candidate(r@),
{
    let mut random: Vec<u8> = Vec::new();
    let mut i: usize = 0;
    while i < RANDOM_LEN
        invariant
            i <= RANDOM_LEN,
            random@.len() == i,
            forall|j: int| 0 <= j < i ==> is_alnum(#[trigger] random@[j]),
        decreases RANDOM_LEN - i,
    {
        random.push(random_alnum());
        i = i + 1;
    }
    let r = candidate_name(random.as_slice());
    assert(r@.subrange(0, name_prefix().len() as int) == name_prefix());
    assert forall|k: int| 0 <= k < r@.len() implies is_alnum(#[trigger] r@[k]) by {
        if k >= name_prefix().len() {
            assert(r@[k] == random@[k - 3]);
        } else {
            assert(r@[k] == name_prefix()[k]);
        }
    }
    r
}

} // verus!
