//! The failure taxonomy of the decoders, together with the ordered chain of
//! location labels that every decode step pushes on the way out of a failed
//! sub-step.
use vstd::prelude::*;

verus! {

/// The reasons a decode can fail.  Every failure is fatal to the current
/// decode: no partial result is ever returned.
#[derive(Clone, Copy, Debug, PartialEq, Eq, Structural)]
pub enum ErrorKind {
    /// The fixed byte literal at the start of a MAP buffer did not match.
    MagicMismatch,
    /// An RSB buffer declared a version this decoder does not handle.
    UnsupportedVersion,
    /// An RSB buffer declared a palette selector other than 0 or 1.
    UnsupportedPaletteValue,
    /// A dynamic-object discriminator outside the known table.
    UnknownDiscriminator,
    /// The buffer ended in the middle of a field.
    TruncatedInput,
    /// A length-prefixed string declared a length of zero.
    EmptyString,
    /// The literal that must close a MAP buffer was absent.
    MissingTerminator,
}

/// A decode failure: the kind of the innermost failing step, plus the chain
/// of location labels pushed by each enclosing step.  `labels[0]` is the
/// innermost label; the last element names the outermost decode step.
#[derive(Clone, Debug)]
pub struct DecodeError {
    pub kind: ErrorKind,
    pub labels: Vec<String>,
}

impl DecodeError {
    /// A fresh error of the given kind, with no location labels yet.
    pub fn new(kind: ErrorKind) -> (e: Self)
        ensures
            e.kind == kind,
            e.labels@.len() == 0,
    {
        DecodeError { kind, labels: Vec::new() }
    }

    /// Push one location label onto the chain: the kind and every label
    /// already present are unchanged, and the given label is appended as
    /// the new outermost entry.
    pub fn context(self, label: &str) -> (e: Self)
        ensures
            e.kind == self.kind,
            e.labels@.len() == self.labels@.len() + 1,
            e.labels@[self.labels@.len() as int]@ == label@,
            forall|i: int| 0 <= i < self.labels@.len() ==> e.labels@[i] == self.labels@[i],
    {
        let mut labels = self.labels;
        labels.push(label.to_owned());
        DecodeError { kind: self.kind, labels }
    }
}

} // verus!
