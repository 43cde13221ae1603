//! The circuit artifact bundle: three immutable byte sequences (proving key,
//! witness-dependency graph, constraint system) that every proof request
//! shares read-only.

use vstd::prelude::*;

verus! {

/// Mathematical model of an artifact bundle: the three byte sequences it
/// carries, nothing more.
pub struct BundleView {
    pub proving_key: Seq<u8>,
    pub graph: Seq<u8>,
    pub constraint_system: Seq<u8>,
}

/// The three circuit artifacts required by the external prover, loaded once
/// and never mutated. The fields are private: once built, no caller can
/// change what an invocation observes, so every concurrent caller sees the
/// same bundle.
pub struct ArtifactBundle {
    proving_key: Vec<u8>,
    graph: Vec<u8>,
    constraint_system: Vec<u8>,
}

impl View for ArtifactBundle {
    type V = BundleView;

    closed spec fn view(&self) -> BundleView {
        BundleView {
            proving_key: self.proving_key@,
            graph: self.graph@,
            constraint_system: self.constraint_system@,
        }
    }
}

impl ArtifactBundle {
    /// Builds the bundle from the three artifacts. No decoding, validation
    /// or transformation happens here: the bytes are held exactly as given.
    pub fn new(proving_key: Vec<u8>, graph: Vec<u8>, constraint_system: Vec<u8>) -> (bundle:
        ArtifactBundle)
        ensures
            bundle@.proving_key == proving_key@,
            bundle@.graph == graph@,
            bundle@.constraint_system == constraint_system@,
    {
        ArtifactBundle { proving_key, graph, constraint_system }
    }

    /// The proving key, byte for byte as it was loaded.
    pub fn proving_key(&self) -> (bytes: &Vec<u8>)
        ensures
            bytes@ == self@.proving_key,
    {
        &self.proving_key
    }

    /// The witness-dependency graph, byte for byte as it was loaded.
    pub fn graph(&self) -> (bytes: &Vec<u8>)
        ensures
            bytes@ == self@.graph,
    {
        &self.graph
    }

    /// The constraint system, byte for byte as it was loaded.
    pub fn constraint_system(&self) -> (bytes: &Vec<u8>)
        ensures
            bytes@ == self@.constraint_system,
    {
        &self.constraint_system
    }
}

} // verus!
