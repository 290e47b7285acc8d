//! Factor selection: exactly one factor is used per attempt, the first one
//! in provider-returned order that is a FIDO hardware key.
use vstd::prelude::*;
use vstd::string::StrSliceExecFns;
use crate::errors::AuthnError;
use crate::model::Factor;

verus! {

/// Character-for-character string equality.
pub fn str_eq(a: &str, b: &str) -> (r: bool)
    ensures
        r == (a@ == b@),
{
    let la = a.unicode_len();
    let lb = b.unicode_len();
    if la != lb {
        return false;
    }
    let mut i: usize = 0;
    while i < la
        invariant
            la == a@.len(),
            la == b@.len(),
            i <= la,
            forall|j: int| 0 <= j < i ==> a@[j] == b@[j],
        decreases la - i,
    {
        if a.get_char(i) != b.get_char(i) {
            return false;
        }
        i = i + 1;
    }
    proof {
        assert(a@ =~= b@);
    }
    true
}

/// A factor is usable when its type is the hardware-key type and both its
/// provider and its vendor identify FIDO.
pub open spec fn is_fido_factor(f: Factor) -> bool {
    f.factor_type@ == "webauthn"@ && f.provider@ == "FIDO"@ && f.vendor_name@ == "FIDO"@
}

/// The position of the first usable factor in provider order, if any.
pub open spec fn select_index(factors: Seq<Factor>) -> Option<int>
    decreases factors.len(),
{
    if factors.len() == 0 {
        None
    } else if is_fido_factor(factors[0]) {
        Some(0int)
    } else {
        match select_index(factors.drop_first()) {
            Some(i) => Some(i + 1),
            None => None,
        }
    }
}

/// The selection rule, stated whole: where an index comes out it points at a
/// usable factor and every factor before it is unusable; where none comes out
/// no factor in the list is usable.
pub proof fn law_selector_first_match(factors: Seq<Factor>)
    ensures
        select_index(factors) matches Some(i) ==> 0 <= i < factors.len() && is_fido_factor(
            factors[i],
        ) && (forall|j: int| 0 <= j < i ==> !is_fido_factor(factors[j])),
        select_index(factors) is None ==> forall|j: int|
            0 <= j < factors.len() ==> !is_fido_factor(factors[j]),
    decreases factors.len(),
{
    if factors.len() == 0 {
    } else if is_fido_factor(factors[0]) {
    } else {
        law_selector_first_match(factors.drop_first());
        assert(forall|j: int|
            1 <= j < factors.len() ==> factors[j] == factors.drop_first()[j - 1]);
    }
}

/// The first usable position determines the selection.
pub proof fn lemma_select_index_of_first(factors: Seq<Factor>, i: int)
    requires
        0 <= i < factors.len(),
        is_fido_factor(factors[i]),
        forall|j: int| 0 <= j < i ==> !is_fido_factor(factors[j]),
    ensures
        select_index(factors) == Some(i),
    decreases factors.len(),
{
    if i == 0 {
    } else {
        assert(!is_fido_factor(factors[0]));
        assert(forall|j: int|
            1 <= j < factors.len() ==> factors[j] == factors.drop_first()[j - 1]);
        lemma_select_index_of_first(factors.drop_first(), i - 1);
    }
}

/// Tests whether one factor is the usable hardware-key kind.
pub fn factor_matches(f: &Factor) -> (r: bool)
    ensures
        r == is_fido_factor(*f),
{
    str_eq(f.factor_type.as_str(), "webauthn") && str_eq(f.provider.as_str(), "FIDO") && str_eq(
        f.vendor_name.as_str(),
        "FIDO",
    )
}

/// Picks the single factor this attempt will use: the first entry in
/// provider-returned order that is a FIDO hardware key. An empty list or a
/// list without such an entry is reported as `NoSuitableFactor`, never a
/// crash.
pub fn select_factor(factors: &Vec<Factor>) -> (r: Result<usize, AuthnError>)
    ensures
        r matches Ok(i) ==> select_index(factors@) == Some(i as int),
        r matches Err(e) ==> e == AuthnError::NoSuitableFactor && select_index(factors@) is None,
{
    let n = factors.len();
    let mut i: usize = 0;
    while i < n
        invariant
            n == factors@.len(),
            i <= n,
            forall|j: int| 0 <= j < i ==> !is_fido_factor(factors@[j]),
        decreases n - i,
    {
        if factor_matches(&factors[i]) {
            proof {
                lemma_select_index_of_first(factors@, i as int);
            }
            return Ok(i);
        }
        i = i + 1;
    }
    proof {
        law_selector_first_match(factors@);
        assert(select_index(factors@) is None);
    }
    Err(AuthnError::NoSuitableFactor)
}

} // verus!
