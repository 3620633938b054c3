//! The BIP-370 roles, each a stage that holds the document and offers only the operations that
//! are legal at that stage: Creator, Constructor, Updater, Signer, Finalizer and Extractor.
pub mod constructor;
pub mod creator;
pub mod extractor;
pub mod finalizer;
mod sealed;
pub mod signer;
pub mod updater;

pub use self::constructor::{Constructor, InputsOnlyModifiable, Mod, Modifiable, OutputsOnlyModifiable};
pub use self::creator::Creator;
pub use self::extractor::Extractor;
pub use self::finalizer::Finalizer;
pub use self::signer::Signer;
pub use self::updater::Updater;
