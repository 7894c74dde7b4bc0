use vstd::prelude::*;
use vstd::utf8::encode_utf8;
use crate::block::ExifBlock;
use crate::decode::{entries_view, EntryView, ExifTagEntry, TagRecord};
use crate::value::copy_value;

verus! {

/// ASCII lower-casing of one byte.
pub open spec fn ascii_lower(c: u8) -> u8 {
    if 0x41 <= c <= 0x5a { (c + 0x20) as u8 } else { c }
}

/// Equality of two byte strings up to ASCII case.
pub open spec fn ascii_ci_eq(a: Seq<u8>, b: Seq<u8>) -> bool {
    a.len() == b.len() && forall|i: int| 0 <= i < a.len() ==> ascii_lower(a[i]) == ascii_lower(b[i])
}

/// Whether an entry named `n` answers a lookup of `name`.
pub open spec fn name_matches(n: Seq<char>, name: Seq<char>, case_sensitive: bool) -> bool {
    if case_sensitive {
        n == name
    } else {
        ascii_ci_eq(encode_utf8(n), encode_utf8(name))
    }
}

/// How many of the first `j` entries answer a lookup of `name`.
pub open spec fn matches_before(es: Seq<EntryView>, name: Seq<char>, cs: bool, j: int) -> nat
    decreases j,
{
    if j <= 0 {
        0
    } else {
        matches_before(es, name, cs, j - 1) + if name_matches(es[j - 1].name, name, cs) {
            1nat
        } else {
            0nat
        }
    }
}

/// Entry `j` is the match number `occ` (from 0) of a lookup of `name`.
pub open spec fn is_occurrence(es: Seq<EntryView>, name: Seq<char>, cs: bool, occ: nat, j: int) -> bool {
    0 <= j < es.len() && name_matches(es[j].name, name, cs) && matches_before(es, name, cs, j) == occ
}

/// Position of match number `occ` of a lookup of `name`, scanning in decode order.
pub open spec fn lookup_index(es: Seq<EntryView>, name: Seq<char>, cs: bool, occ: nat) -> Option<int> {
    if exists|j: int| is_occurrence(es, name, cs, occ, j) {
        Some(choose|j: int| is_occurrence(es, name, cs, occ, j))
    } else {
        None
    }
}

proof fn lemma_matches_monotone(es: Seq<EntryView>, name: Seq<char>, cs: bool, a: int, b: int)
    requires
        a <= b,
    ensures
        matches_before(es, name, cs, a) <= matches_before(es, name, cs, b),
    decreases b - a,
{
    if a < b {
        lemma_matches_monotone(es, name, cs, a, b - 1);
    }
}

/// A lookup has at most one answer.
pub proof fn lemma_occurrence_unique(es: Seq<EntryView>, name: Seq<char>, cs: bool, occ: nat, j: int, k: int)
    requires
        is_occurrence(es, name, cs, occ, j),
        is_occurrence(es, name, cs, occ, k),
    ensures
        j == k,
{
    if j < k {
        lemma_matches_monotone(es, name, cs, j + 1, k);
    } else if k < j {
        lemma_matches_monotone(es, name, cs, k + 1, j);
    }
}

fn eq_ignore_ascii_case(a: &[u8], b: &[u8]) -> (r: bool)
    ensures
        r == ascii_ci_eq(a@, b@),
{
    if a.len() != b.len() {
        return false;
    }
    let mut i: usize = 0;
    while i < a.len()
        invariant
            a@.len() == b@.len(),
            i <= a@.len(),
            forall|k: int| 0 <= k < i ==> ascii_lower(a@[k]) == ascii_lower(b@[k]),
        decreases a@.len() - i,
    {
        let x = if 0x41 <= a[i] && a[i] <= 0x5a { a[i] + 0x20 } else { a[i] };
        let y = if 0x41 <= b[i] && b[i] <= 0x5a { b[i] + 0x20 } else { b[i] };
        if x != y {
            return false;
        }
        i += 1;
    }
    true
}

impl ExifBlock {
    /// Index in the flat list of match number `occurrence` (from 0) of a
    /// lookup of `name`, exact or up to ASCII case.
    pub fn find_index(&self, name: &str, occurrence: usize, case_sensitive: bool) -> (r: Option<usize>)
        ensures
            match lookup_index(entries_view(self.entry_data_vector@), name@, case_sensitive, occurrence as nat) {
                None => r is None,
                Some(j) => r matches Some(k) && k as int == j,
            },
    {
        let ghost es = entries_view(self.entry_data_vector@);
        let target = String::from_str(name);
        let name_bytes = name.as_bytes();
        let mut count: usize = 0;
        let mut i: usize = 0;
        while i < self.entry_data_vector.len()
            invariant
                es == entries_view(self.entry_data_vector@),
                target@ == name@,
                name_bytes@ == encode_utf8(name@),
                i <= es.len(),
                count == matches_before(es, name@, case_sensitive, i as int),
                count <= occurrence,
            decreases es.len() - i,
        {
            let entry = &self.entry_data_vector[i];
            let hit = if case_sensitive {
                entry.name == target
            } else {
                eq_ignore_ascii_case(entry.name.as_str().as_bytes(), name_bytes)
            };
            if hit {
                if count == occurrence {
                    proof {
                        assert(is_occurrence(es, name@, case_sensitive, occurrence as nat, i as int));
                        let c = choose|j: int| is_occurrence(es, name@, case_sensitive, occurrence as nat, j);
                        lemma_occurrence_unique(es, name@, case_sensitive, occurrence as nat, i as int, c);
                    }
                    return Some(i);
                }
                count += 1;
            }
            i += 1;
        }
        proof {
            if exists|j: int| is_occurrence(es, name@, case_sensitive, occurrence as nat, j) {
                let j = choose|j: int| is_occurrence(es, name@, case_sensitive, occurrence as nat, j);
                lemma_matches_monotone(es, name@, case_sensitive, j + 1, es.len() as int);
            }
        }
        None
    }

    /// The record of match number `occurrence` of a lookup of `name`.
    pub fn find(&self, name: &str, occurrence: usize, case_sensitive: bool) -> (r: Option<&TagRecord>)
        ensures
            match lookup_index(entries_view(self.entry_data_vector@), name@, case_sensitive, occurrence as nat) {
                None => r is None,
                Some(j) => r matches Some(v) && v@ == entries_view(self.entry_data_vector@)[j].value,
            },
    {
        match self.find_index(name, occurrence, case_sensitive) {
            None => None,
            Some(j) => {
                proof {
                    let es = entries_view(self.entry_data_vector@);
                    let o = occurrence as nat;
                    assert(exists|k: int| is_occurrence(es, name@, case_sensitive, o, k));
                    let c = choose|k: int| is_occurrence(es, name@, case_sensitive, o, k);
                    assert(is_occurrence(es, name@, case_sensitive, o, c));
                    assert(j as int == c);
                    assert(es[c] == self.entry_data_vector@[c]@);
                }
                Some(&self.entry_data_vector[j].value)
            },
        }
    }

    /// A copy of match number `occurrence` of a lookup of `name`, with its offset.
    pub fn find_tag(&self, name: &str, occurrence: usize, case_sensitive: bool) -> (r: Option<ExifTagEntry>)
        ensures
            match lookup_index(entries_view(self.entry_data_vector@), name@, case_sensitive, occurrence as nat) {
                None => r is None,
                Some(j) => r matches Some(e) && e@ == entries_view(self.entry_data_vector@)[j],
            },
    {
        match self.find_index(name, occurrence, case_sensitive) {
            None => None,
            Some(j) => {
                proof {
                    let es = entries_view(self.entry_data_vector@);
                    let o = occurrence as nat;
                    assert(exists|k: int| is_occurrence(es, name@, case_sensitive, o, k));
                    let c = choose|k: int| is_occurrence(es, name@, case_sensitive, o, k);
                    assert(is_occurrence(es, name@, case_sensitive, o, c));
                    assert(j as int == c);
                    assert(es[c] == self.entry_data_vector@[c]@);
                }
                let e = &self.entry_data_vector[j];
                Some(
                    ExifTagEntry {
                        name: e.name.clone(),
                        value: TagRecord { format: e.value.format, count: e.value.count, value: copy_value(&e.value.value) },
                        offset: e.offset,
                    },
                )
            },
        }
    }

    /// Every decoded entry with its value and offset, in decode order.
    pub fn fields(&self) -> (r: &[ExifTagEntry])
        ensures
            r@ == self.entry_data_vector@,
    {
        self.entry_data_vector.as_slice()
    }
}

} // verus!
