pub mod cli;
pub mod compare;
pub mod corpus_index;
pub mod error;
pub mod substrate_input;
pub mod taxonomy;
pub mod text;
pub mod verdict_class;

pub use cli::{BratchCli, Command, CompareArgs};
pub use corpus_index::{CorpusEntry, DirectiveString, RegressionSignatureCorpusIndex};
pub use error::{BratchError, CoreError, CoreFailure, ExitCode};
pub use substrate_input::{RevisionId, RevisionIdPair, SubstrateInput};
pub use taxonomy::RegressionSignature;
pub use verdict_class::VerdictClass;
