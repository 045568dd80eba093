//! The pairings of hashes that a proof system is set up with.

use crate::error::{Error, HashFamily, Unsupported};
use vstd::prelude::*;

verus! {

/// The sizes of a configuration that the layout of a verifier contract
/// depends on.
#[derive(Clone, Copy, Debug, PartialEq, Eq, Structural)]
pub struct Widths {
    /// Bytes of one digest of the commitment trees.
    pub hash_size: usize,
    /// Bits of one base-field element.
    pub field_bits: usize,
    /// Bits of one extension-field element.
    pub extension_bits: usize,
}

/// The hashes and sizes of one proof-system configuration. It is chosen
/// once and never changes while the configuration is in use.
#[derive(Clone, Copy, Debug, PartialEq, Eq, Structural)]
pub struct HashConfig {
    /// The hash of the system's own commitment trees.
    pub hasher: HashFamily,
    /// The hash used inside circuits and for the public inputs.
    pub inner_hasher: HashFamily,
    pub widths: Widths,
}

impl Widths {
    /// A verifier contract can be rendered for these sizes: digests of 25
    /// bytes over a field of 64 bits with an extension of 128 bits.
    pub open spec fn exportable(&self) -> bool {
        self.hash_size == 25 && self.field_bits == 64 && self.extension_bits == 128
    }

    /// The first thing that keeps a contract from being rendered.
    pub open spec fn export_fault(&self) -> Unsupported
        recommends
            !self.exportable(),
    {
        if self.hash_size != 25 {
            Unsupported::DigestSize(self.hash_size)
        } else if self.field_bits != 64 {
            Unsupported::FieldBits(self.field_bits)
        } else {
            Unsupported::ExtensionBits(self.extension_bits)
        }
    }

    /// Checks that a verifier contract can be rendered for these sizes.
    pub fn check_exportable(&self) -> (result: Result<(), Error>)
        ensures
            result is Ok <==> self.exportable(),
            result is Err ==> result == Err::<(), Error>(
                Error::UnsupportedOperation(self.export_fault()),
            ),
    {
        if self.hash_size != 25 {
            Err(Error::UnsupportedOperation(Unsupported::DigestSize(self.hash_size)))
        } else if self.field_bits != 64 {
            Err(Error::UnsupportedOperation(Unsupported::FieldBits(self.field_bits)))
        } else if self.extension_bits != 128 {
            Err(Error::UnsupportedOperation(Unsupported::ExtensionBits(self.extension_bits)))
        } else {
            Ok(())
        }
    }
}

/// The sizes of the Goldilocks field with its quadratic extension and
/// digests cut to 25 bytes.
pub open spec fn goldilocks_widths() -> Widths {
    Widths { hash_size: 25, field_bits: 64, extension_bits: 128 }
}

/// Keccak-256, cut to 25 bytes for the commitment trees and read as field
/// elements inside circuits, over the Goldilocks field and its quadratic
/// extension.
#[derive(Clone, Copy, Debug, PartialEq, Eq, Structural)]
pub struct KeccakGoldilocksConfig2;

impl KeccakGoldilocksConfig2 {
    /// The hashes and widths of this configuration.
    pub fn hash_config() -> (config: HashConfig)
        ensures
            config == (HashConfig {
                hasher: HashFamily::Keccak256,
                inner_hasher: HashFamily::Keccak256,
                widths: goldilocks_widths(),
            }),
            config.widths.exportable(),
    {
        HashConfig {
            hasher: HashFamily::Keccak256,
            inner_hasher: HashFamily::Keccak256,
            widths: Widths { hash_size: 25, field_bits: 64, extension_bits: 128 },
        }
    }
}

/// SHA-256, cut to 25 bytes for the commitment trees and read as field
/// elements inside circuits, over the Goldilocks field and its quadratic
/// extension.
#[derive(Clone, Copy, Debug, PartialEq, Eq, Structural)]
pub struct Sha256GoldilocksConfig;

impl Sha256GoldilocksConfig {
    /// The hashes and widths of this configuration.
    pub fn hash_config() -> (config: HashConfig)
        ensures
            config == (HashConfig {
                hasher: HashFamily::Sha256,
                inner_hasher: HashFamily::Sha256,
                widths: goldilocks_widths(),
            }),
            config.widths.exportable(),
    {
        HashConfig {
            hasher: HashFamily::Sha256,
            inner_hasher: HashFamily::Sha256,
            widths: Widths { hash_size: 25, field_bits: 64, extension_bits: 128 },
        }
    }
}

} // verus!
