use vstd::prelude::*;
use rand::rand_core::OsError;
use rand::rngs::StdRng;
use crate::error::NoiseError;

verus! {

#[verifier::external_type_specification]
#[verifier::external_body]
pub struct ExStdRng(StdRng);

#[verifier::external_type_specification]
#[verifier::external_body]
pub struct ExOsError(OsError);

/// Number of distinct table values, and the lattice period in chunks.
pub const PERIOD: usize = 256;

/// Length of a doubled permutation table.
pub const TABLE_LEN: usize = 512;

/// The sequence `0, 1, ..., n - 1`.
pub open spec fn identity_seq(n: nat) -> Seq<usize> {
    Seq::new(n, |i: int| i as usize)
}

/// `t` is a permutation of `0..256` written out twice: its first half holds
/// each value below 256 exactly once, and its second half repeats the first.
pub open spec fn is_doubled_permutation(t: Seq<usize>) -> bool {
    &&& t.len() == 512
    &&& t.subrange(0, 256).to_multiset() == identity_seq(256).to_multiset()
    &&& t.subrange(256, 512) == t.subrange(0, 256)
}

/// The lookup table that assigns gradients to lattice points.
///
/// It always holds 512 entries, each below 256, so that an entry plus a
/// corner index below 256 is again an index into the table.
pub struct PermutationTable {
    entries: Vec<usize>,
}

impl View for PermutationTable {
    type V = Seq<usize>;

    closed spec fn view(&self) -> Seq<usize> {
        self.entries@
    }
}

impl PermutationTable {
    pub closed spec fn wf(&self) -> bool {
        &&& self.entries@.len() == 512
        &&& forall|i: int| 0 <= i < 512 ==> #[trigger] self.entries@[i] < 256
    }

    /// What `wf` promises, in terms of the view.
    pub proof fn lemma_wf(&self)
        requires
            self.wf(),
        ensures
            self@.len() == 512,
            forall|i: int| 0 <= i < 512 ==> #[trigger] self@[i] < 256,
    {
    }

    /// Builds a table from given entries; they need not form a permutation.
    pub fn from_entries(entries: Vec<usize>) -> (r: Result<PermutationTable, NoiseError>)
        ensures
            r is Ok <==> (entries@.len() == 512 && forall|i: int|
                0 <= i < entries@.len() ==> #[trigger] entries@[i] < 256),
            r matches Ok(t) ==> t.wf() && t@ == entries@,
            r is Err ==> r == Err::<PermutationTable, NoiseError>(NoiseError::InvalidTable),
    {
        if entries.len() != TABLE_LEN {
            return Err(NoiseError::InvalidTable);
        }
        let mut i: usize = 0;
        while i < entries.len()
            invariant
                entries@.len() == 512,
                i <= 512,
                forall|k: int| 0 <= k < i ==> #[trigger] entries@[k] < 256,
            decreases 512 - i,
        {
            if entries[i] >= PERIOD {
                return Err(NoiseError::InvalidTable);
            }
            i = i + 1;
        }
        Ok(PermutationTable { entries })
    }

    /// The entry at `index`.
    pub fn get(&self, index: usize) -> (r: usize)
        requires
            self.wf(),
            index < 512,
        ensures
            r == self@[index as int],
            r < 256,
    {
        self.entries[index]
    }

    /// A copy of the entries.
    pub fn to_vec(&self) -> (r: Vec<usize>)
        ensures
            r@ == self@,
    {
        self.entries.clone()
    }
}

/// Relies on rand's `SliceRandom::shuffle`: it permutes the slice in place
/// (swaps only), so the values and their counts stay the same.
#[verifier::external_body]
fn shuffle_values(values: &mut Vec<usize>, rng: &mut StdRng)
    ensures
        final(values)@.len() == old(values)@.len(),
        final(values)@.to_multiset() == old(values)@.to_multiset(),
{
    rand::seq::SliceRandom::shuffle(values.as_mut_slice(), rng)
}

/// Relies on rand's `SeedableRng::try_from_rng` over `OsRng`: a generator
/// seeded from the operating system, or the error the system source gave.
#[verifier::external_body]
fn seed_from_os() -> (r: Result<StdRng, OsError>) {
    <StdRng as rand::SeedableRng>::try_from_rng(&mut rand::rngs::OsRng)
}

/// Every value of a permutation of `0..256` is below 256.
proof fn lemma_permutation_bounded(s: Seq<usize>)
    requires
        s.to_multiset() == identity_seq(256).to_multiset(),
    ensures
        forall|k: int| 0 <= k < s.len() ==> #[trigger] s[k] < 256,
{
    assert forall|k: int| 0 <= k < s.len() implies #[trigger] s[k] < 256 by {
        s.to_multiset_ensures();
        identity_seq(256).to_multiset_ensures();
        assert(s.contains(s[k]));
        assert(s.to_multiset().count(s[k]) > 0);
        assert(identity_seq(256).to_multiset().count(s[k]) > 0);
        assert(identity_seq(256).contains(s[k]));
        let j = choose|j: int| 0 <= j < 256 && identity_seq(256)[j] == s[k];
        assert(s[k] == j as usize);
    }
}

/// Doubles a permutation: entry `i` is `shuffled[i mod 256]`.
fn double_permutation(shuffled: &Vec<usize>) -> (r: PermutationTable)
    requires
        shuffled@.len() == 256,
        shuffled@.to_multiset() == identity_seq(256).to_multiset(),
    ensures
        r.wf(),
        is_doubled_permutation(r@),
        r@.subrange(0, 256) == shuffled@,
{
    proof {
        lemma_permutation_bounded(shuffled@);
    }
    let mut entries: Vec<usize> = Vec::with_capacity(TABLE_LEN);
    let mut i: usize = 0;
    while i < TABLE_LEN
        invariant
            i <= 512,
            entries@.len() == i,
            shuffled@.len() == 256,
            forall|k: int| 0 <= k < 256 ==> #[trigger] shuffled@[k] < 256,
            forall|k: int| 0 <= k < i && k < 256 ==> #[trigger] entries@[k] == shuffled@[k],
            forall|k: int| 256 <= k < i ==> #[trigger] entries@[k] == shuffled@[k - 256],
        decreases 512 - i,
    {
        let index: usize = i & 255;
        assert(i < 512 ==> i & 255 == if i < 256 {
            i
        } else {
            (i - 256) as usize
        }) by (bit_vector);
        entries.push(shuffled[index]);
        i = i + 1;
    }
    assert(entries@.subrange(0, 256) =~= shuffled@);
    assert(entries@.subrange(256, 512) =~= shuffled@);
    PermutationTable { entries }
}

/// A fresh table whose first half is a shuffle of `0..256` drawn from `rng`.
pub fn generate_permutation_table_with(rng: &mut StdRng) -> (r: PermutationTable)
    ensures
        r.wf(),
        is_doubled_permutation(r@),
{
    let mut values: Vec<usize> = Vec::with_capacity(PERIOD);
    let mut i: usize = 0;
    while i < PERIOD
        invariant
            i <= 256,
            values@ == identity_seq(i as nat),
        decreases 256 - i,
    {
        values.push(i);
        i = i + 1;
        assert(values@ =~= identity_seq(i as nat));
    }
    shuffle_values(&mut values, rng);
    double_permutation(&values)
}

/// A fresh table shuffled by a generator seeded from the operating system.
/// Fails with `RandomnessUnavailable` when the system gives no entropy.
pub fn generate_permutation_table() -> (r: Result<PermutationTable, NoiseError>)
    ensures
        r matches Ok(t) ==> t.wf() && is_doubled_permutation(t@),
        r is Err ==> r == Err::<PermutationTable, NoiseError>(NoiseError::RandomnessUnavailable),
{
    match seed_from_os() {
        Ok(mut rng) => Ok(generate_permutation_table_with(&mut rng)),
        Err(_) => Err(NoiseError::RandomnessUnavailable),
    }
}

} // verus!
