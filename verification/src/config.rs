use vstd::prelude::*;
use crate::strings::Language;

verus! {

/// The persistent configuration: interface language, the shell to embed, an
/// optional git repository to watch, and an optional agent command line
/// (program followed by its arguments). Loading and saving it live at the
/// application edge; the dashboard logic only reads these plain values.
#[derive(Debug, Clone, PartialEq, Eq)]
pub struct AppConfig {
    pub language: Language,
    pub shell: String,
    pub git_repo: Option<String>,
    pub agents_cmd: Option<Vec<String>>,
}

} // verus!
