//! The discrete-logarithm recovery table.
//!
//! A `DlogTable` is the precomputed structure of the baby-step/giant-step
//! algorithm: a table of the first `m` multiples of a generator (the baby
//! steps), together with the inverse of the `m`-th multiple (the giant
//! step).  `lookup` recovers a scalar `s < m * m` from the group element
//! `s * generator` by walking at most `m` giant steps and probing the baby
//! table at each; on a hit at giant index `i` and baby index `j` the
//! scalar is `i * m + j`, and if no probe hits within `m` giant steps the
//! scalar is out of bound and `lookup` reports `None`.
//!
//! The table is a process-wide protocol constant in deployments: its bound
//! must match the one used when the amounts were encrypted, so it is built
//! once and shared read-only by all decryption calls.

use vstd::prelude::*;
use crate::bytesutil::{bytes_eq, clone_bytes};
use crate::group::{curve_add, curve_elem_decodes, curve_neg, curve_zero, exp_generator,
    exp_generator_bytes, generate_global_params, global_params, group_add, group_elem_ok,
    group_neg, group_unit};

verus! {

/// The baby-step/giant-step structure: serialized group elements of the
/// first `m` multiples of the generator, and the inverse of the `m`-th.
pub struct DlogTable {
    /// `baby[j]` is the serialization of `j * generator`; `baby[0]` is the
    /// group unit.
    pub baby: Vec<Vec<u8>>,
    /// The serialized generator the table was built from.
    pub generator: Vec<u8>,
    /// The serialization of `-(m * generator)`, added once per giant step.
    pub inv_step: Vec<u8>,
}

impl DlogTable {
    /// The table bound `m`: baby entries, and at most as many giant steps.
    pub open spec fn spec_size(self) -> int {
        self.baby@.len() as int
    }

    /// Well-formedness: every entry is a valid group element, consecutive
    /// baby entries differ by one generator step, and the giant step is
    /// the inverse of one step past the last baby entry.
    pub open spec fn wf(self) -> bool {
        &&& 1 <= self.baby@.len()
        &&& self.baby@.len() * self.baby@.len() <= u64::MAX
        &&& group_elem_ok(self.generator@)
        &&& (forall|j: int| 0 <= j < self.baby@.len() ==> group_elem_ok(#[trigger] self.baby@[j]@))
        &&& (forall|j: int|
            1 <= j < self.baby@.len() ==> #[trigger] self.baby@[j]@ == group_add(
                self.baby@[j - 1]@,
                self.generator@,
            ))
        &&& self.inv_step@ == group_neg(
            group_add(self.baby@[self.baby@.len() - 1]@, self.generator@),
        )
        &&& group_elem_ok(self.inv_step@)
    }

    /// The table size as a run-time value.
    pub fn size(&self) -> (m: usize)
        ensures
            m == self.spec_size(),
    {
        self.baby.len()
    }
}

/// The group element reached from `v` after `i` giant steps.
pub open spec fn giant_step(t: DlogTable, v: Seq<u8>, i: nat) -> Seq<u8>
    decreases i,
{
    if i == 0 {
        v
    } else {
        group_add(giant_step(t, v, (i - 1) as nat), t.inv_step@)
    }
}

/// The first baby index at or after `j` whose entry equals `w`.
pub open spec fn baby_hit_from(t: DlogTable, w: Seq<u8>, j: int) -> Option<int>
    decreases t.baby@.len() - j,
{
    if j < 0 || j >= t.baby@.len() {
        None
    } else if t.baby@[j]@ == w {
        Some(j)
    } else {
        baby_hit_from(t, w, j + 1)
    }
}

/// The first baby index whose entry equals `w`.
pub open spec fn baby_hit(t: DlogTable, w: Seq<u8>) -> Option<int> {
    baby_hit_from(t, w, 0)
}

/// The first giant index at or after `i` whose probe hits the baby table,
/// together with the baby index it hits.
pub open spec fn bsgs_from(t: DlogTable, v: Seq<u8>, i: int) -> Option<(int, int)>
    decreases t.baby@.len() - i,
{
    if i < 0 || i >= t.baby@.len() {
        None
    } else {
        match baby_hit(t, giant_step(t, v, i as nat)) {
            Some(j) => Some((i, j)),
            None => bsgs_from(t, v, i + 1),
        }
    }
}

/// What `lookup` recovers for target `v`: `i * m + j` for the first giant
/// index `i` with a baby hit `j`, or nothing within `m` giant steps.
pub open spec fn dlog_of(t: DlogTable, v: Seq<u8>) -> Option<int> {
    match bsgs_from(t, v, 0) {
        Some((i, j)) => Some(i * t.spec_size() + j),
        None => None,
    }
}

/// The `j`-th baby entry a table built from `g` must hold: the unit for
/// `j = 0`, and one generator step past the previous entry after that.
pub open spec fn baby_entry(g: Seq<u8>, j: int) -> Seq<u8>
    decreases j,
{
    if j <= 0 {
        group_unit(g)
    } else {
        group_add(baby_entry(g, j - 1), g)
    }
}

/// A table fully determined by its generator and bound: well-formed,
/// of size `m`, built from `g`, and starting at the group unit.  Two
/// tables that both satisfy this recover exactly the same scalars
/// ([`lemma_determined_tables_agree`]) — the bit-identical-tables
/// invariant that lets a regenerated table stand in for any shipped
/// copy with the same generator and bound.
pub open spec fn built_from(t: DlogTable, g: Seq<u8>, m: int) -> bool {
    &&& t.wf()
    &&& t.spec_size() == m
    &&& t.generator@ == g
    &&& t.baby@[0]@ == group_unit(g)
}

/// In a determined table every baby entry is the chain value.
proof fn lemma_baby_entries_determined(t: DlogTable, g: Seq<u8>, j: int)
    requires
        built_from(t, g, t.spec_size()),
        0 <= j < t.spec_size(),
    ensures
        t.baby@[j]@ == baby_entry(g, j),
    decreases j,
{
    if j > 0 {
        lemma_baby_entries_determined(t, g, j - 1);
    }
}

/// Two determined tables with the same generator and bound hold the same
/// giant step.
proof fn lemma_inv_step_determined(t1: DlogTable, t2: DlogTable, g: Seq<u8>, m: int)
    requires
        built_from(t1, g, m),
        built_from(t2, g, m),
    ensures
        t1.inv_step@ == t2.inv_step@,
{
    lemma_baby_entries_determined(t1, g, m - 1);
    lemma_baby_entries_determined(t2, g, m - 1);
}

/// Two determined tables agree on every baby scan.
proof fn lemma_baby_hit_determined(t1: DlogTable, t2: DlogTable, g: Seq<u8>, m: int, w: Seq<u8>, j: int)
    requires
        built_from(t1, g, m),
        built_from(t2, g, m),
        0 <= j,
    ensures
        baby_hit_from(t1, w, j) == baby_hit_from(t2, w, j),
    decreases m - j,
{
    if j < m {
        lemma_baby_entries_determined(t1, g, j);
        lemma_baby_entries_determined(t2, g, j);
        lemma_baby_hit_determined(t1, t2, g, m, w, j + 1);
    }
}

/// Two determined tables agree on every giant-step chain.
proof fn lemma_giant_step_determined(t1: DlogTable, t2: DlogTable, g: Seq<u8>, m: int, v: Seq<u8>, i: nat)
    requires
        built_from(t1, g, m),
        built_from(t2, g, m),
    ensures
        giant_step(t1, v, i) == giant_step(t2, v, i),
    decreases i,
{
    lemma_inv_step_determined(t1, t2, g, m);
    if i > 0 {
        lemma_giant_step_determined(t1, t2, g, m, v, (i - 1) as nat);
    }
}

/// Two determined tables agree on the whole search.
proof fn lemma_bsgs_determined(t1: DlogTable, t2: DlogTable, g: Seq<u8>, m: int, v: Seq<u8>, i: int)
    requires
        built_from(t1, g, m),
        built_from(t2, g, m),
        0 <= i,
    ensures
        bsgs_from(t1, v, i) == bsgs_from(t2, v, i),
    decreases m - i,
{
    if i < m {
        lemma_giant_step_determined(t1, t2, g, m, v, i as nat);
        lemma_baby_hit_determined(t1, t2, g, m, giant_step(t1, v, i as nat), 0);
        lemma_bsgs_determined(t1, t2, g, m, v, i + 1);
    }
}

/// The recovery table is determined by its generator and bound: any two
/// tables built from the same generator with the same bound recover the
/// same scalar for every target.  This is the interoperability invariant
/// of the process-wide table — a regenerated table and a precomputed one
/// for the same protocol constants answer identically.
pub proof fn lemma_determined_tables_agree(t1: DlogTable, t2: DlogTable, g: Seq<u8>, m: int, v: Seq<u8>)
    requires
        built_from(t1, g, m),
        built_from(t2, g, m),
    ensures
        dlog_of(t1, v) == dlog_of(t2, v),
{
    lemma_bsgs_determined(t1, t2, g, m, v, 0);
}

/// Helper for [`lemma_table_entry_recovered`]: scanning the baby table
/// from position `k` finds a match for `w` at or before any position `j`
/// that holds `w`.
proof fn lemma_baby_hit_finds(t: DlogTable, w: Seq<u8>, k: int, j: int)
    requires
        0 <= k <= j < t.baby@.len(),
        t.baby@[j]@ == w,
    ensures
        exists|s: int|
            {
                &&& baby_hit_from(t, w, k) == Some(s)
                &&& k <= s <= j
                &&& t.baby@[s]@ == w
            },
    decreases j - k,
{
    if t.baby@[k]@ == w {
        assert(baby_hit_from(t, w, k) == Some(k));
    } else {
        lemma_baby_hit_finds(t, w, k + 1, j);
    }
}

/// Every value stored in the baby table is recovered by the lookup: for a
/// target equal to the `j`-th baby entry the search hits at giant index
/// zero, at the first baby position holding those bytes.  Values within
/// the first `m` scalars are therefore never reported out of bound.
pub proof fn lemma_table_entry_recovered(t: DlogTable, j: int)
    requires
        t.wf(),
        0 <= j < t.spec_size(),
    ensures
        exists|s: int|
            {
                &&& dlog_of(t, t.baby@[j]@) == Some(s)
                &&& 0 <= s <= j
                &&& t.baby@[s]@ == t.baby@[j]@
            },
{
    let w = t.baby@[j]@;
    assert(giant_step(t, w, 0) == w);
    lemma_baby_hit_finds(t, w, 0, j);
    let s = choose|s: int|
        {
            &&& baby_hit_from(t, w, 0) == Some(s)
            &&& 0 <= s <= j
            &&& t.baby@[s]@ == w
        };
    assert(bsgs_from(t, w, 0) == Some((0int, s)));
    assert(dlog_of(t, w) == Some(0 * t.spec_size() + s));
    assert(0 * t.spec_size() + s == s) by (nonlinear_arith);
}

impl DlogTable {
    /// Build the recovery table for `generator` with bound `m`, by `m`
    /// generator steps from the group unit.
    pub fn build(generator: &Vec<u8>, m: usize) -> (t: DlogTable)
        requires
            group_elem_ok(generator@),
            1 <= m,
            m * m <= u64::MAX,
        ensures
            t.wf(),
            t.spec_size() == m,
            t.generator@ == generator@,
            built_from(t, generator@, m as int),
    {
        let mut baby: Vec<Vec<u8>> = Vec::new();
        let mut cur: Vec<u8> = curve_zero(generator);
        while baby.len() < m
            invariant
                baby@.len() <= m,
                group_elem_ok(generator@),
                group_elem_ok(cur@),
                baby@.len() == 0 ==> cur@ == group_unit(generator@),
                baby@.len() > 0 ==> baby@[0]@ == group_unit(generator@),
                forall|j: int| 0 <= j < baby@.len() ==> group_elem_ok(#[trigger] baby@[j]@),
                forall|j: int|
                    1 <= j < baby@.len() ==> #[trigger] baby@[j]@ == group_add(
                        baby@[j - 1]@,
                        generator@,
                    ),
                baby@.len() > 0 ==> cur@ == group_add(baby@[baby@.len() - 1]@, generator@),
            decreases m - baby.len(),
        {
            let entry = clone_bytes(&cur);
            let next = curve_add(&cur, generator);
            baby.push(entry);
            cur = next;
        }
        let inv_step = curve_neg(&cur);
        DlogTable { baby, generator: clone_bytes(generator), inv_step }
    }

    /// Build the table only if the generator bytes are a valid group
    /// element, reporting `None` otherwise.
    pub fn try_build(generator: &Vec<u8>, m: usize) -> (r: Option<DlogTable>)
        requires
            1 <= m,
            m * m <= u64::MAX,
        ensures
            r is Some <==> group_elem_ok(generator@),
            r matches Some(t) ==> t.wf() && t.spec_size() == m && t.generator@ == generator@
                && built_from(t, generator@, m as int),
    {
        if curve_elem_decodes(generator) {
            Some(DlogTable::build(generator, m))
        } else {
            None
        }
    }

    /// Build the recovery table of the global parameters derived from a
    /// seed string: the generator is the one used for encryption in the
    /// exponent.  This is the regeneration path for the process-wide
    /// table; it must produce the same table as any precomputed copy
    /// shipped for the same seed and bound.
    pub fn from_seed(seed: &str, m: usize) -> (t: DlogTable)
        requires
            1 <= m,
            m * m <= u64::MAX,
        ensures
            t.wf(),
            t.spec_size() == m,
            built_from(t, exp_generator(global_params(seed@)), m as int),
    {
        let global = generate_global_params(seed);
        let generator = exp_generator_bytes(&global);
        DlogTable::build(&generator, m)
    }

    /// The first baby index whose entry holds exactly the bytes `w`.
    fn find_baby(&self, w: &Vec<u8>) -> (r: Option<usize>)
        ensures
            match r {
                Some(j) => baby_hit(*self, w@) == Some(j as int) && j < self.baby@.len(),
                None => baby_hit(*self, w@) is None,
            },
    {
        let mut j: usize = 0;
        while j < self.baby.len()
            invariant
                j <= self.baby@.len(),
                baby_hit(*self, w@) == baby_hit_from(*self, w@, j as int),
            decreases self.baby@.len() - j,
        {
            if bytes_eq(&self.baby[j], w) {
                return Some(j);
            }
            j = j + 1;
        }
        None
    }

    /// Recover the scalar whose encoding in the exponent is `target`.
    ///
    /// Returns `Some(i * m + j)` for the first giant index `i < m` whose
    /// probe hits the baby table at index `j`, and `None` if no probe hits
    /// within `m` giant steps — the scalar is then outside the bound the
    /// table was built for.
    pub fn lookup(&self, target: &Vec<u8>) -> (r: Option<u64>)
        requires
            self.wf(),
            group_elem_ok(target@),
        ensures
            match r {
                Some(s) => dlog_of(*self, target@) == Some(s as int),
                None => dlog_of(*self, target@) is None,
            },
            r matches Some(s) ==> s < self.spec_size() * self.spec_size(),
    {
        let m = self.baby.len();
        let mut y = clone_bytes(target);
        let mut i: usize = 0;
        while i < m
            invariant
                self.wf(),
                group_elem_ok(target@),
                m == self.baby@.len(),
                i <= m,
                y@ == giant_step(*self, target@, i as nat),
                group_elem_ok(y@),
                bsgs_from(*self, target@, 0) == bsgs_from(*self, target@, i as int),
            decreases m - i,
        {
            if let Some(j) = self.find_baby(&y) {
                assert(bsgs_from(*self, target@, i as int) == Some((i as int, j as int)));
                assert((i as int) * (m as int) + (j as int) < (m as int) * (m as int)) by (
                nonlinear_arith)
                    requires
                        0 <= i < m,
                        0 <= j < m,
                ;
                let s = (i as u64) * (m as u64) + (j as u64);
                assert(dlog_of(*self, target@) == Some(s as int));
                return Some(s);
            }
            y = curve_add(&y, &self.inv_step);
            i = i + 1;
            assert(y@ == giant_step(*self, target@, i as nat));
        }
        None
    }
}

} // verus!
