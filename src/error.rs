use vstd::prelude::*;

verus! {

/// An optional part of the library that a build may leave out.
#[derive(Clone, Copy, Debug, PartialEq, Eq, Structural)]
pub enum Capability {
    /// Newline-delimited JSON records.
    LineDelimited,
    /// Writing to an S3-compatible object store.
    CloudStore,
}

/// Every error that the input/output layer reports.
///
/// Each variant carries the offending value or the underlying message, so
/// that nothing a caller needs to diagnose the failure is lost.
#[derive(Clone, Debug, PartialEq, Eq)]
pub enum ExplorerError {
    /// A filesystem or network failure.
    Io(String),
    /// The bytes do not match the claimed format.
    Decode(String),
    /// An unrecognised type name or compression algorithm.
    UnsupportedOption(String),
    /// The requested capability is not part of this build.
    CapabilityDisabled(Capability),
    /// A transport or authentication failure reported by the object store.
    ObjectStore(String),
}

/// `part` occurs somewhere inside `text`.
pub open spec fn contains_text(text: Seq<char>, part: Seq<char>) -> bool {
    exists|i: int| 0 <= i <= text.len() - part.len() && #[trigger] text.subrange(i, i + part.len()) == part
}

/// `prefix + detail` contains `detail`.
pub proof fn lemma_suffix_contained(prefix: Seq<char>, detail: Seq<char>)
    ensures
        contains_text(prefix + detail, detail),
{
    let t = prefix + detail;
    assert(t.subrange(prefix.len() as int, prefix.len() + detail.len() as int) =~= detail);
}

/// The message for a capability this build leaves out.
pub open spec fn disabled_text(c: Capability) -> Seq<char> {
    match c {
        Capability::LineDelimited => "this build was compiled without newline-delimited JSON support"@,
        Capability::CloudStore => "this build was compiled without object store support"@,
    }
}

impl ExplorerError {
    /// A human-readable description; the offending value or the underlying
    /// message appears in it verbatim.
    pub fn message(&self) -> (r: String)
        ensures
            match self {
                ExplorerError::Io(m) => contains_text(r@, m@),
                ExplorerError::Decode(m) => contains_text(r@, m@),
                ExplorerError::UnsupportedOption(v) => contains_text(r@, v@),
                ExplorerError::ObjectStore(m) => contains_text(r@, m@),
                ExplorerError::CapabilityDisabled(c) => r@ == disabled_text(*c),
            },
    {
        match self {
            ExplorerError::Io(m) => {
                let mut r = String::from_str("i/o error: ");
                r.append(m.as_str());
                proof { lemma_suffix_contained("i/o error: "@, m@); }
                r
            },
            ExplorerError::Decode(m) => {
                let mut r = String::from_str("could not decode input: ");
                r.append(m.as_str());
                proof { lemma_suffix_contained("could not decode input: "@, m@); }
                r
            },
            ExplorerError::UnsupportedOption(v) => {
                let mut r = String::from_str("unsupported option: ");
                r.append(v.as_str());
                proof { lemma_suffix_contained("unsupported option: "@, v@); }
                r
            },
            ExplorerError::ObjectStore(m) => {
                let mut r = String::from_str("object store error: ");
                r.append(m.as_str());
                proof { lemma_suffix_contained("object store error: "@, m@); }
                r
            },
            ExplorerError::CapabilityDisabled(c) => {
                let r = match c {
                    Capability::LineDelimited => String::from_str(
                        "this build was compiled without newline-delimited JSON support",
                    ),
                    Capability::CloudStore => String::from_str(
                        "this build was compiled without object store support",
                    ),
                };
                r
            },
        }
    }
}

} // verus!
