//! The root message: validation descends only into the parties that are
//! present and stops at the first failure.

use ivms101::Address;
use ivms101::Beneficiary;
use ivms101::BeneficiaryVASP;
use ivms101::IntermediaryVASP;
use ivms101::NaturalPerson;
use ivms101::OneToN;
use ivms101::OriginatingVASP;
use ivms101::Originator;
use ivms101::Person;
use ivms101::Validatable;
use ivms101::ValidationError;
use ivms101::IVMS101;

fn match_validation_error(res: Result<(), ValidationError>, code: u8) {
    let msg = res.unwrap_err().message().to_string();
    assert!(
        msg.ends_with(format!("(IVMS101 C{code})").as_str()),
        "unexpected message: {msg}"
    );
}

const VALID_LEI: &str = "2594007XIACKNMUAW223";

fn anchored_person() -> Person {
    let address = Address::new(
        Some("Main street"),
        Some("12"),
        None,
        "8000",
        "Zurich",
        "CH",
    )
    .unwrap();
    Person::NaturalPerson(
        NaturalPerson::new("Friedrich", "Engels", None, Some(address)).unwrap(),
    )
}

fn bare_person() -> Person {
    Person::NaturalPerson(NaturalPerson::new("Friedrich", "Engels", None, None).unwrap())
}

#[test]
fn test_empty_message_validates() {
    let message = IVMS101 {
        originator: None,
        beneficiary: None,
        originating_vasp: None,
        beneficiary_vasp: None,
    };
    message.validate().unwrap();
}

#[test]
fn test_full_message_validates() {
    let message = IVMS101 {
        originator: Some(Originator::new(anchored_person()).unwrap()),
        beneficiary: Some(Beneficiary::new(anchored_person(), Some("acct-1")).unwrap()),
        originating_vasp: Some(OriginatingVASP::new("Example VASP AG", VALID_LEI).unwrap()),
        beneficiary_vasp: Some(BeneficiaryVASP {
            beneficiary_vasp: Some(anchored_person()),
        }),
    };
    message.validate().unwrap();
}

#[test]
fn test_message_reports_first_failing_party() {
    let message = IVMS101 {
        originator: Some(Originator::new(bare_person()).unwrap()),
        beneficiary: Some(Beneficiary::new(anchored_person(), None).unwrap()),
        originating_vasp: None,
        beneficiary_vasp: None,
    };
    match_validation_error(message.validate(), 1);
}

#[test]
fn test_beneficiary_vasp_absent_person() {
    let vasp = BeneficiaryVASP {
        beneficiary_vasp: None,
    };
    vasp.validate().unwrap();
}

#[test]
fn test_intermediary_vasp_skips_sequencing() {
    // Rule C12 needs the surrounding message chain, so any sequence number
    // is accepted; only the person's own rules run.
    let vasp = IntermediaryVASP {
        intermediary_vasp: anchored_person(),
        sequence: 7,
    };
    vasp.validate().unwrap();

    let bare = IntermediaryVASP {
        intermediary_vasp: bare_person(),
        sequence: 0,
    };
    // A bare natural person passes its own rules: rule C1 binds the
    // originator's persons only.
    bare.validate().unwrap();
}

#[test]
fn test_originator_checks_persons_in_order() {
    // The first person is fine; the second, a bare natural person, breaks
    // rule C1, and its failure is the one reported.
    let originator = Originator {
        originator_persons: OneToN::try_from_vec(vec![anchored_person(), bare_person()])
            .unwrap(),
        account_number: ivms101::ZeroToN::Absent,
    };
    match_validation_error(originator.validate(), 1);
}
