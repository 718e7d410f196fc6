//! The validation engine's backbone: the `Validatable` trait, the outcome
//! relation that every `validate` contract is stated through, and the
//! messages of the business rules C1 through C11. Each message ends with the
//! violated rule's literal tag, `(IVMS101 C<n>)`; that suffix is part of the
//! observable contract.

use vstd::prelude::*;
use crate::containers::OneToN;
use crate::containers::ZeroToN;
use crate::error::ValidationError;

verus! {

/// How an executable validation result relates to its specification: same
/// outcome, and on failure the same message.
pub open spec fn outcome_matches(
    r: Result<(), ValidationError>,
    s: Result<(), Seq<char>>,
) -> bool {
    match r {
        Ok(()) => s is Ok,
        Err(e) => s matches Err(m) && e@ == m,
    }
}

/// An entity that the business rules C1 through C11 speak about. The
/// specification method gives the outcome the rules assign to the value;
/// `validate` computes exactly that outcome.
pub trait Validatable {
    /// The outcome the business rules assign to this value: `Ok` when every
    /// rule passes, or the message of the first rule that fails, in the
    /// fixed traversal order.
    spec fn validation(&self) -> Result<(), Seq<char>>;

    /// Check the value against the business rules.
    fn validate(&self) -> (r: Result<(), ValidationError>)
        ensures
            outcome_matches(r, self.validation()),
    ;
}

/// The outcome of validating the elements of `s` from position `i` on:
/// `Ok` when every remaining element passes, else the message of the first
/// element that fails.
pub open spec fn validation_from<T: Validatable>(s: Seq<T>, i: int) -> Result<(), Seq<char>>
    decreases s.len() - i,
{
    if i < 0 || i >= s.len() {
        Ok(())
    } else {
        match s[i].validation() {
            Err(m) => Err(m),
            Ok(()) => validation_from(s, i + 1),
        }
    }
}

/// The outcome of validating every element of `s` in order, stopping at the
/// first failure.
pub open spec fn seq_validation<T: Validatable>(s: Seq<T>) -> Result<(), Seq<char>> {
    validation_from(s, 0)
}

/// Validating a sequence succeeds exactly when every element's own
/// validation succeeds: first-failure short-circuiting skips no element on
/// the way to `Ok`.
pub proof fn lemma_seq_validation_ok<T: Validatable>(s: Seq<T>)
    ensures
        (seq_validation(s) is Ok) <==> (forall|i: int|
            0 <= i < s.len() ==> (#[trigger] s[i].validation()) is Ok),
{
    lemma_validation_from_ok(s, 0);
}

/// The same, from an arbitrary starting position.
proof fn lemma_validation_from_ok<T: Validatable>(s: Seq<T>, i: int)
    requires
        0 <= i <= s.len(),
    ensures
        (validation_from(s, i) is Ok) <==> (forall|j: int|
            i <= j < s.len() ==> (#[trigger] s[j].validation()) is Ok),
    decreases s.len() - i,
{
    if i < s.len() {
        lemma_validation_from_ok(s, i + 1);
    }
}

/// Validate every element of a `OneToN` in container order, stopping at the
/// first failure.
pub fn validate_each_one_to_n<T: Validatable>(c: &OneToN<T>) -> (r: Result<
    (),
    ValidationError,
>)
    ensures
        outcome_matches(r, seq_validation(c.elements())),
{
    let ghost s = c.elements();
    let n = c.len();
    let mut i: usize = 0;
    while i < n
        invariant
            n == s.len(),
            i <= n,
            s == c.elements(),
            validation_from(s, 0) == validation_from(s, i as int),
        decreases n - i,
    {
        let outcome = c.get(i).validate();
        if let Err(e) = outcome {
            return Err(e);
        }
        i += 1;
    }
    Ok(())
}

/// Validate every element of a `ZeroToN` in container order, stopping at
/// the first failure.
pub fn validate_each_zero_to_n<T: Validatable>(c: &ZeroToN<T>) -> (r: Result<
    (),
    ValidationError,
>)
    ensures
        outcome_matches(r, seq_validation(c.elements())),
{
    let ghost s = c.elements();
    let n = c.len();
    let mut i: usize = 0;
    while i < n
        invariant
            n == s.len(),
            i <= n,
            s == c.elements(),
            validation_from(s, 0) == validation_from(s, i as int),
        decreases n - i,
    {
        let outcome = c.get(i).validate();
        if let Err(e) = outcome {
            return Err(e);
        }
        i += 1;
    }
    Ok(())
}

/// Message of rule C1: an originator's natural person needs an address, a
/// customer id, a national id, or a date and place of birth.
pub open spec fn c1_message() -> Seq<char> {
    "Natural person: one of 1) geographic address 2) customer id 3) national id 4) date and place of birth is required (IVMS101 C1)"@
}

/// Message of rule C2: a birth date must lie in the past.
pub open spec fn c2_message() -> Seq<char> {
    "Date of birth must be in the past (IVMS101 C2)"@
}

/// Message of rule C3: a country code must be recognized or the sentinel.
pub open spec fn c3_message() -> Seq<char> {
    "Invalid country code (IVMS101 C3)"@
}

/// Message of rule C4: a legal person needs an address, a customer number,
/// or a national identification.
pub open spec fn c4_message() -> Seq<char> {
    "Legal person needs either geographic address, customer number or national identification (IVMS101 C4)"@
}

/// Message of rule C5: a legal person needs a legal-name identifier.
pub open spec fn c5_message() -> Seq<char> {
    "Legal person must have a legal name id (IVMS101 C5)"@
}

/// Message of rule C6: a natural person needs a legal-name identifier.
pub open spec fn c6_message() -> Seq<char> {
    "Natural person must have a legal name id (IVMS101 C6)"@
}

/// Message of rule C7: a legal person's national id must be of an accepted
/// type.
pub open spec fn c7_message() -> Seq<char> {
    "Legal person must have a 'RAID', 'MISC', 'LEIX' or 'TXID' identification (IVMS101 C7)"@
}

/// Message of rule C8: an address needs an address line, or a street name
/// with a building name or number.
pub open spec fn c8_message() -> Seq<char> {
    "Either 1) address line or 2) street name and either building name or building number are required (IVMS101 C8)"@
}

/// Message of rule C9 when a country of issue is present.
pub open spec fn c9_country_message() -> Seq<char> {
    "Legal person must not have a country of issue (IVMS101 C9)"@
}

/// Message of rule C9 when a registration authority is missing on a
/// national id that is not a Legal Entity Identifier.
pub open spec fn c9_missing_message() -> Seq<char> {
    "Legal person must specify registration authority for non-'LEIX' identification (IVMS101 C9)"@
}

/// Message of rule C9 when a registration authority accompanies a Legal
/// Entity Identifier.
pub open spec fn c9_extra_message() -> Seq<char> {
    "Legal person must not specify registration authority for 'LEIX' identification (IVMS101 C9)"@
}

/// Message of rule C10: a registration authority code must be on the GLEIF
/// list.
pub open spec fn c10_message() -> Seq<char> {
    "Provided registration authority is not on the GLEIF list (IVMS101 C10)"@
}

/// Message of rule C11: a Legal Entity Identifier must pass the structural
/// and checksum validation.
pub open spec fn c11_message() -> Seq<char> {
    "Invalid LEI (IVMS101 C11)"@
}

/// Whether `s` ends with the literal tag of the given rule number, written
/// `(IVMS101 C<n>)`.
pub open spec fn ends_with_tag(s: Seq<char>, tag: Seq<char>) -> bool {
    s.len() >= tag.len() && s.subrange(s.len() - tag.len(), s.len() as int) == tag
}

/// Every rule message ends with its rule's literal tag.
#[verifier::rlimit(100)]
pub proof fn lemma_messages_end_with_tags()
    ensures
        ends_with_tag(c1_message(), "(IVMS101 C1)"@),
        ends_with_tag(c2_message(), "(IVMS101 C2)"@),
        ends_with_tag(c3_message(), "(IVMS101 C3)"@),
        ends_with_tag(c4_message(), "(IVMS101 C4)"@),
        ends_with_tag(c5_message(), "(IVMS101 C5)"@),
        ends_with_tag(c6_message(), "(IVMS101 C6)"@),
        ends_with_tag(c7_message(), "(IVMS101 C7)"@),
        ends_with_tag(c8_message(), "(IVMS101 C8)"@),
        ends_with_tag(c9_country_message(), "(IVMS101 C9)"@),
        ends_with_tag(c9_missing_message(), "(IVMS101 C9)"@),
        ends_with_tag(c9_extra_message(), "(IVMS101 C9)"@),
        ends_with_tag(c10_message(), "(IVMS101 C10)"@),
        ends_with_tag(c11_message(), "(IVMS101 C11)"@),
{
    reveal_strlit("Natural person: one of 1) geographic address 2) customer id 3) national id 4) date and place of birth is required (IVMS101 C1)");
    reveal_strlit("Date of birth must be in the past (IVMS101 C2)");
    reveal_strlit("Invalid country code (IVMS101 C3)");
    reveal_strlit("Legal person needs either geographic address, customer number or national identification (IVMS101 C4)");
    reveal_strlit("Legal person must have a legal name id (IVMS101 C5)");
    reveal_strlit("Natural person must have a legal name id (IVMS101 C6)");
    reveal_strlit("Legal person must have a 'RAID', 'MISC', 'LEIX' or 'TXID' identification (IVMS101 C7)");
    reveal_strlit("Either 1) address line or 2) street name and either building name or building number are required (IVMS101 C8)");
    reveal_strlit("Legal person must not have a country of issue (IVMS101 C9)");
    reveal_strlit("Legal person must specify registration authority for non-'LEIX' identification (IVMS101 C9)");
    reveal_strlit("Legal person must not specify registration authority for 'LEIX' identification (IVMS101 C9)");
    reveal_strlit("Provided registration authority is not on the GLEIF list (IVMS101 C10)");
    reveal_strlit("Invalid LEI (IVMS101 C11)");
    reveal_strlit("(IVMS101 C1)");
    reveal_strlit("(IVMS101 C2)");
    reveal_strlit("(IVMS101 C3)");
    reveal_strlit("(IVMS101 C4)");
    reveal_strlit("(IVMS101 C5)");
    reveal_strlit("(IVMS101 C6)");
    reveal_strlit("(IVMS101 C7)");
    reveal_strlit("(IVMS101 C8)");
    reveal_strlit("(IVMS101 C9)");
    reveal_strlit("(IVMS101 C10)");
    reveal_strlit("(IVMS101 C11)");
    assert(c1_message().subrange(c1_message().len() - 12, c1_message().len() as int)
        =~= "(IVMS101 C1)"@);
    assert(c2_message().subrange(c2_message().len() - 12, c2_message().len() as int)
        =~= "(IVMS101 C2)"@);
    assert(c3_message().subrange(c3_message().len() - 12, c3_message().len() as int)
        =~= "(IVMS101 C3)"@);
    assert(c4_message().subrange(c4_message().len() - 12, c4_message().len() as int)
        =~= "(IVMS101 C4)"@);
    assert(c5_message().subrange(c5_message().len() - 12, c5_message().len() as int)
        =~= "(IVMS101 C5)"@);
    assert(c6_message().subrange(c6_message().len() - 12, c6_message().len() as int)
        =~= "(IVMS101 C6)"@);
    assert(c7_message().subrange(c7_message().len() - 12, c7_message().len() as int)
        =~= "(IVMS101 C7)"@);
    assert(c8_message().subrange(c8_message().len() - 12, c8_message().len() as int)
        =~= "(IVMS101 C8)"@);
    assert(c9_country_message().subrange(
        c9_country_message().len() - 12,
        c9_country_message().len() as int,
    ) =~= "(IVMS101 C9)"@);
    assert(c9_missing_message().subrange(
        c9_missing_message().len() - 12,
        c9_missing_message().len() as int,
    ) =~= "(IVMS101 C9)"@);
    assert(c9_extra_message().subrange(
        c9_extra_message().len() - 12,
        c9_extra_message().len() as int,
    ) =~= "(IVMS101 C9)"@);
    assert(c10_message().subrange(c10_message().len() - 13, c10_message().len() as int)
        =~= "(IVMS101 C10)"@);
    assert(c11_message().subrange(c11_message().len() - 13, c11_message().len() as int)
        =~= "(IVMS101 C11)"@);
}

} // verus!
