use capstone::error::cs_result;
use capstone::{CapstoneError, Error};

#[test]
fn each_code_gives_its_error() {
    let expected = [
        CapstoneError::OutOfMemory,
        CapstoneError::UnsupportedArch,
        CapstoneError::InvalidHandle,
        CapstoneError::InvalidCsh,
        CapstoneError::InvalidMode,
        CapstoneError::InvalidOption,
        CapstoneError::DetailOff,
        CapstoneError::MemSetup,
        CapstoneError::UnsupportedVersion,
        CapstoneError::IrrelevantDataInDiet,
        CapstoneError::IrrelevantDataInSkipData,
        CapstoneError::UnsupportedX86Att,
        CapstoneError::UnsupportedX86Intel,
        CapstoneError::UnsupportedX86Masm,
    ];
    assert_eq!(cs_result(0), Ok(()));
    for (i, e) in expected.iter().enumerate() {
        assert_eq!(cs_result(i as u32 + 1), Err(Error::Capstone(*e)));
    }
}

#[test]
fn other_codes_are_unknown_errors() {
    assert_eq!(cs_result(15), Err(Error::Capstone(CapstoneError::UnknownCapstoneError)));
    assert_eq!(cs_result(u32::MAX), Err(Error::Capstone(CapstoneError::UnknownCapstoneError)));
}

#[test]
fn known_codes_give_distinct_results() {
    for a in 0..15u32 {
        for b in 0..15u32 {
            assert_eq!(a == b, cs_result(a) == cs_result(b));
        }
    }
}
