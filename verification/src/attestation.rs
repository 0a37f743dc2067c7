//! SLSA provenance (in-toto statement) for the tool's builds.
use vstd::prelude::*;
use crate::string_map::StringMap;
use crate::value_objects::Timestamp;

verus! {

#[verifier::external_type_specification]
#[verifier::external_body]
pub struct ExSerdeJsonError(serde_json::Error);

/// The text that `chrono` writes, with `to_rfc3339`, for the instant `nanos` nanoseconds
/// after the Unix epoch in UTC.
pub uninterp spec fn rfc3339_of(nanos: i64) -> Seq<char>;

/// Calls `chrono::DateTime::<Utc>::from_timestamp_nanos` and writes the instant with
/// `to_rfc3339`.
///
/// The text depends on the instant alone. As chrono's source writes it, it is the date and
/// time `YYYY-MM-DDTHH:MM:SS` (every `i64` instant falls in the years 1677 to 2262, so the
/// year has four digits), then a fraction of a second where there is one, then the offset
/// `+00:00`. What the digits are is left to the name.
#[verifier::external_body]
fn rfc3339_text(nanos: i64) -> (r: String)
    ensures
        r@ == rfc3339_of(nanos),
        r@.len() >= 25,
        r@[4] == '-' && r@[7] == '-' && r@[10] == 'T' && r@[13] == ':' && r@[16] == ':',
        r@.subrange(r@.len() - 6, r@.len() as int) == "+00:00"@,
{
    chrono::DateTime::from_timestamp_nanos(nanos).to_rfc3339()
}

/// SLSA provenance attestation.
#[derive(Debug, Clone)]
pub struct SlsaProvenance {
    pub _type: String,
    pub subject: Vec<Subject>,
    pub predicate_type: String,
    pub predicate: Predicate,
}

#[derive(Debug, Clone)]
pub struct Subject {
    pub name: String,
    pub digest: StringMap,
}

#[derive(Debug, Clone)]
pub struct Predicate {
    pub builder: Builder,
    pub build_type: String,
    pub invocation: Invocation,
    pub metadata: Metadata,
}

#[derive(Debug, Clone)]
pub struct Builder {
    pub id: String,
}

#[derive(Debug, Clone)]
pub struct Invocation {
    pub config_source: ConfigSource,
}

#[derive(Debug, Clone)]
pub struct ConfigSource {
    pub uri: String,
    pub digest: StringMap,
}

#[derive(Debug, Clone)]
pub struct Metadata {
    pub build_invocation_id: String,
    pub build_started_on: String,
    pub completeness: Completeness,
}

#[derive(Debug, Clone, Copy, PartialEq, Eq, Structural)]
pub struct Completeness {
    pub parameters: bool,
    pub environment: bool,
    pub materials: bool,
}

/// Whether a byte is layout that may trail a signer's output: a space, a tab or a line end.
pub open spec fn is_layout_byte(b: u8) -> bool {
    b == 9u8 || b == 10u8 || b == 13u8 || b == 32u8
}

/// `s` without the layout bytes at its end.
pub open spec fn trim_layout_end(s: Seq<u8>) -> Seq<u8>
    decreases s.len(),
{
    if s.len() > 0 && is_layout_byte(s.last()) {
        trim_layout_end(s.drop_last())
    } else {
        s
    }
}

/// The provenance statement of build `build_id`, started now: an in-toto v0.1 statement
/// with SLSA v0.2 provenance from the project's GitHub workflow, complete in parameters,
/// environment and materials, with no subjects and no digests yet.
pub open spec fn provenance_ok(p: SlsaProvenance, build_id: Seq<char>) -> bool {
    &&& p._type@ == "https://in-toto.io/Statement/v0.1"@
    &&& p.subject@.len() == 0
    &&& p.predicate_type@ == "https://slsa.dev/provenance/v0.2"@
    &&& p.predicate.builder.id@ == "https://github.com/MChorfa/tensor-guardian/.github/workflows/build.yml"@
    &&& p.predicate.build_type@ == "https://github.com/MChorfa/tensor-guardian/build@v1"@
    &&& p.predicate.invocation.config_source.uri@ == "https://github.com/MChorfa/tensor-guardian"@
    &&& p.predicate.invocation.config_source.digest@ == Map::<Seq<char>, Seq<char>>::empty()
    &&& p.predicate.metadata.build_invocation_id@ == build_id
    &&& p.predicate.metadata.completeness == (Completeness {
        parameters: true,
        environment: true,
        materials: true,
    })
}

impl SlsaProvenance {
    /// The provenance statement of build `build_id`, started now.
    pub fn new(build_id: &str) -> (r: Self)
        ensures
            provenance_ok(r, build_id@),
            exists|t: i64| r.predicate.metadata.build_started_on@ == #[trigger] rfc3339_of(t),
    {
        let now = Timestamp::now();
        let r = SlsaProvenance::started_at(build_id, now);
        assert(r.predicate.metadata.build_started_on@ == rfc3339_of(now.nanos));
        r
    }

    /// The provenance statement of build `build_id`, started at `started`: its start is
    /// written in RFC 3339 form.
    pub fn started_at(build_id: &str, started: Timestamp) -> (r: Self)
        ensures
            provenance_ok(r, build_id@),
            r.predicate.metadata.build_started_on@ == rfc3339_of(started.nanos),
    {
        SlsaProvenance {
            _type: String::from_str("https://in-toto.io/Statement/v0.1"),
            subject: Vec::new(),
            predicate_type: String::from_str("https://slsa.dev/provenance/v0.2"),
            predicate: Predicate {
                builder: Builder {
                    id: String::from_str(
                        "https://github.com/MChorfa/tensor-guardian/.github/workflows/build.yml",
                    ),
                },
                build_type: String::from_str("https://github.com/MChorfa/tensor-guardian/build@v1"),
                invocation: Invocation {
                    config_source: ConfigSource {
                        uri: String::from_str("https://github.com/MChorfa/tensor-guardian"),
                        digest: StringMap::new(),
                    },
                },
                metadata: Metadata {
                    build_invocation_id: String::from_str(build_id),
                    build_started_on: rfc3339_text(started.nanos),
                    completeness: Completeness { parameters: true, environment: true, materials: true },
                },
            },
        }
    }
}

/// Attestation generator.
pub struct AttestationGenerator;

/// Errors of attestation.
#[derive(Debug)]
pub enum AttestationError {
    NotImplemented,
    HashError(String),
    SigningError(String),
    SerializationError(serde_json::Error),
}

impl AttestationGenerator {
    pub fn new() -> (r: Self) {
        AttestationGenerator
    }

    /// The provenance of a build: that of the manual build, whatever the binary.
    pub fn generate_provenance(&self, _binary_path: &str) -> (r: Result<SlsaProvenance, AttestationError>)
        ensures
            r matches Ok(p) && provenance_ok(p, "manual-build"@),
    {
        Ok(SlsaProvenance::new("manual-build"))
    }

    /// Signs a provenance statement with Sigstore/cosign.
    ///
    /// `signer_answer` is what cosign answered when it signed the statement's JSON form:
    /// its output, or the reason it failed. The signature is that output without the
    /// trailing spaces, tabs and line ends that cosign prints after it; an answer with
    /// nothing else in it, or a failure, is a `SigningError`.
    pub fn sign(
        &self,
        _provenance: &SlsaProvenance,
        signer_answer: Result<Vec<u8>, String>,
    ) -> (r: Result<Vec<u8>, AttestationError>)
        ensures
            match signer_answer {
                Ok(out) => if trim_layout_end(out@).len() > 0 {
                    r matches Ok(sig) && sig@ == trim_layout_end(out@)
                } else {
                    r matches Err(AttestationError::SigningError(m))
                        && m@ == "signer returned no signature"@
                },
                Err(reason) => r matches Err(AttestationError::SigningError(m)) && m@ == reason@,
            },
    {
        match signer_answer {
            Err(reason) => Err(AttestationError::SigningError(reason)),
            Ok(out) => {
                let ghost answer = out@;
                let mut sig = out;
                loop
                    invariant
                        trim_layout_end(sig@) == trim_layout_end(answer),
                    ensures
                        sig@ == trim_layout_end(answer),
                    decreases sig.len(),
                {
                    let n = sig.len();
                    if n == 0 {
                        break;
                    }
                    let last = sig[n - 1];
                    if !(last == 9u8 || last == 10u8 || last == 13u8 || last == 32u8) {
                        break;
                    }
                    proof {
                        assert(sig@.drop_last() == sig@.subrange(0, n - 1));
                    }
                    sig.pop();
                }
                if sig.len() == 0 {
                    Err(AttestationError::SigningError(String::from_str("signer returned no signature")))
                } else {
                    Ok(sig)
                }
            },
        }
    }
}

impl Default for AttestationGenerator {
    fn default() -> (r: Self) {
        AttestationGenerator
    }
}

} // verus!
