use vstd::prelude::*;
use vstd::string::*;

verus! {

/// How strictly a pack is verified while its objects are traversed, from the
/// strictest level (`All`) down to the most lenient one.
#[derive(PartialEq, Eq, Structural, Clone, Copy, Debug)]
pub enum SafetyCheck {
    SkipFileChecksumVerification,
    SkipFileAndObjectChecksumVerification,
    SkipFileAndObjectChecksumVerificationAndNoAbortOnDecodeError,
    All,
}

/// The configuration key of each level, strictest first.
pub open spec fn safety_keys() -> Seq<Seq<char>> {
    seq![
        "all"@,
        "skip-file-checksum"@,
        "skip-file-and-object-checksum"@,
        "skip-file-and-object-checksum-and-no-abort-on-decode"@,
    ]
}

/// The level that a configuration key selects, if it is one of the recognized keys.
pub open spec fn safety_of_key(key: Seq<char>) -> Option<SafetyCheck> {
    if key == "all"@ {
        Some(SafetyCheck::All)
    } else if key == "skip-file-checksum"@ {
        Some(SafetyCheck::SkipFileChecksumVerification)
    } else if key == "skip-file-and-object-checksum"@ {
        Some(SafetyCheck::SkipFileAndObjectChecksumVerification)
    } else if key == "skip-file-and-object-checksum-and-no-abort-on-decode"@ {
        Some(SafetyCheck::SkipFileAndObjectChecksumVerificationAndNoAbortOnDecodeError)
    } else {
        None
    }
}

/// An unrecognized safety-check key, kept as it was given.
#[derive(Clone, Debug)]
pub struct ConfigError {
    pub key: String,
}

impl ConfigError {
    pub open spec fn spec_message(&self) -> Seq<char> {
        "Unknown value for safety check: '"@ + self.key@ + "'"@
    }

    /// A line that says which key was not recognized.
    pub fn message(&self) -> (r: String)
        ensures
            r@ == self.spec_message(),
    {
        let r = String::from_str("Unknown value for safety check: '");
        let r = r.concat(self.key.as_str());
        r.concat("'")
    }
}

fn text_eq(a: &str, b: &str) -> (r: bool)
    ensures
        r == (a@ == b@),
{
    a.to_owned() == b.to_owned()
}

impl SafetyCheck {
    /// Strictness rank: 3 for `All` down to 0 for the most lenient level.
    pub open spec fn strictness(self) -> int {
        match self {
            SafetyCheck::All => 3,
            SafetyCheck::SkipFileChecksumVerification => 2,
            SafetyCheck::SkipFileAndObjectChecksumVerification => 1,
            SafetyCheck::SkipFileAndObjectChecksumVerificationAndNoAbortOnDecodeError => 0,
        }
    }

    /// The pack file's own checksum is verified only under `All`.
    pub open spec fn spec_verifies_pack_checksum(self) -> bool {
        self is All
    }

    /// Each object's checksum is verified under the two strictest levels.
    pub open spec fn spec_verifies_object_checksum(self) -> bool {
        self is All || self is SkipFileChecksumVerification
    }

    /// Only the most lenient level carries on past a failing object.
    pub open spec fn spec_aborts_on_error(self) -> bool {
        !(self is SkipFileAndObjectChecksumVerificationAndNoAbortOnDecodeError)
    }

    pub fn verifies_pack_checksum(&self) -> (r: bool)
        ensures
            r == self.spec_verifies_pack_checksum(),
    {
        match self {
            SafetyCheck::All => true,
            _ => false,
        }
    }

    pub fn verifies_object_checksum(&self) -> (r: bool)
        ensures
            r == self.spec_verifies_object_checksum(),
    {
        match self {
            SafetyCheck::All | SafetyCheck::SkipFileChecksumVerification => true,
            _ => false,
        }
    }

    pub fn aborts_on_error(&self) -> (r: bool)
        ensures
            r == self.spec_aborts_on_error(),
    {
        match self {
            SafetyCheck::SkipFileAndObjectChecksumVerificationAndNoAbortOnDecodeError => false,
            _ => true,
        }
    }

    /// The recognized configuration keys, strictest level first.
    pub fn variants() -> (r: &'static [&'static str])
        ensures
            r@.len() == 4,
            forall|i: int| 0 <= i < 4 ==> #[trigger] r@[i]@ == safety_keys()[i],
    {
        let r: &'static [&'static str] = &[
            "all",
            "skip-file-checksum",
            "skip-file-and-object-checksum",
            "skip-file-and-object-checksum-and-no-abort-on-decode",
        ];
        r
    }

    /// Selects the level named by `key`, exactly as spelled in `variants`.
    pub fn parse(key: &str) -> (r: Result<SafetyCheck, ConfigError>)
        ensures
            safety_of_key(key@) matches Some(c) ==> r == Ok::<SafetyCheck, ConfigError>(c),
            safety_of_key(key@) is None ==> (r matches Err(e) && e.key@ == key@),
    {
        if text_eq(key, "all") {
            Ok(SafetyCheck::All)
        } else if text_eq(key, "skip-file-checksum") {
            Ok(SafetyCheck::SkipFileChecksumVerification)
        } else if text_eq(key, "skip-file-and-object-checksum") {
            Ok(SafetyCheck::SkipFileAndObjectChecksumVerification)
        } else if text_eq(key, "skip-file-and-object-checksum-and-no-abort-on-decode") {
            Ok(SafetyCheck::SkipFileAndObjectChecksumVerificationAndNoAbortOnDecodeError)
        } else {
            Err(ConfigError { key: key.to_owned() })
        }
    }

    /// The configuration key that selects this level.
    pub fn key(&self) -> (r: &'static str)
        ensures
            safety_of_key(r@) == Some(*self),
    {
        proof {
            lemma_keys_distinct();
        }
        match self {
            SafetyCheck::All => "all",
            SafetyCheck::SkipFileChecksumVerification => "skip-file-checksum",
            SafetyCheck::SkipFileAndObjectChecksumVerification => "skip-file-and-object-checksum",
            SafetyCheck::SkipFileAndObjectChecksumVerificationAndNoAbortOnDecodeError => {
                "skip-file-and-object-checksum-and-no-abort-on-decode"
            },
        }
    }
}

/// Each listed key selects one level, in order from the strictest, so every
/// level has exactly one key.
pub proof fn lemma_keys_select_levels()
    ensures
        safety_of_key(safety_keys()[0]) == Some(SafetyCheck::All),
        safety_of_key(safety_keys()[1]) == Some(SafetyCheck::SkipFileChecksumVerification),
        safety_of_key(safety_keys()[2]) == Some(SafetyCheck::SkipFileAndObjectChecksumVerification),
        safety_of_key(safety_keys()[3]) == Some(
            SafetyCheck::SkipFileAndObjectChecksumVerificationAndNoAbortOnDecodeError,
        ),
        forall|i: int, j: int|
            0 <= i < j < 4 ==> (#[trigger] safety_of_key(safety_keys()[i])).unwrap().strictness()
                > (#[trigger] safety_of_key(safety_keys()[j])).unwrap().strictness(),
{
    lemma_keys_distinct();
}

/// The four keys differ, since their lengths do.
proof fn lemma_keys_distinct()
    ensures
        "all"@.len() == 3,
        "skip-file-checksum"@.len() == 18,
        "skip-file-and-object-checksum"@.len() == 29,
        "skip-file-and-object-checksum-and-no-abort-on-decode"@.len() == 52,
{
    reveal_strlit("all");
    reveal_strlit("skip-file-checksum");
    reveal_strlit("skip-file-and-object-checksum");
    reveal_strlit("skip-file-and-object-checksum-and-no-abort-on-decode");
}

impl std::str::FromStr for SafetyCheck {
    type Err = ConfigError;

    fn from_str(s: &str) -> Result<SafetyCheck, ConfigError> {
        SafetyCheck::parse(s)
    }
}

} // verus!
