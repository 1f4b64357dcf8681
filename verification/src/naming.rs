//! Deterministic names for the container's internal documents and for the
//! output file.

use vstd::prelude::*;
use crate::numeral::spec_decimal;
use crate::numeral::u64_to_decimal;

verus! {

/// The internal resource name of the chapter at position `n` of the reading
/// order: the decimal numeral of `n` followed by `.html`. Distinct positions
/// give distinct names, so registered chapters never collide.
pub open spec fn spec_resource_name(n: nat) -> Seq<char> {
    spec_decimal(n) + ".html"@
}

/// The resource name under which the chapter with sequence index `index` is
/// registered in the container.
pub fn chapter_resource_name(index: usize) -> (s: String)
    ensures
        s@ == spec_resource_name(index as nat),
{
    let mut s = u64_to_decimal(index as u64);
    s.append(".html");
    s
}

/// Distinct sequence indices give distinct resource names, so no two
/// registered chapters ever collide and the reading order keeps one
/// document per position.
pub proof fn lemma_resource_names_distinct(a: nat, b: nat)
    requires
        a != b,
    ensures
        spec_resource_name(a) != spec_resource_name(b),
{
    if spec_resource_name(a) == spec_resource_name(b) {
        let da = spec_decimal(a);
        let db = spec_decimal(b);
        assert(spec_resource_name(a) == da + ".html"@);
        assert(spec_resource_name(b) == db + ".html"@);
        assert((da + ".html"@).len() == da.len() + ".html"@.len());
        assert((db + ".html"@).len() == db.len() + ".html"@.len());
        assert(da.len() == db.len());
        assert(forall|i: int|
            0 <= i < da.len() ==> #[trigger] da[i] == (da + ".html"@)[i] && db[i] == (db
                + ".html"@)[i]);
        assert(da =~= db);
        crate::numeral::lemma_decimal_injective(a, b);
    }
}

/// The file stem of the `index`-th candidate output file name.
pub open spec fn spec_file_stem(n: nat) -> Seq<char> {
    "Novel"@ + spec_decimal(n)
}

/// The stem (no extension) of the `index`-th candidate name for the output
/// file; the caller probes candidates in turn until one is free.
pub fn novel_file_stem(index: u64) -> (s: String)
    ensures
        s@ == spec_file_stem(index as nat),
{
    let mut s = "Novel".to_owned();
    let num = u64_to_decimal(index);
    s.append(num.as_str());
    s
}

} // verus!
