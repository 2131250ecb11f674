//! Entry points for loading a theme, and the errors they can report.
//!
//! A load fails only structurally: when the configuration text is not
//! well-formed TOML (or, for a caller reading a file, when the file cannot
//! be read).  A malformed individual color or border value is never an
//! error; the field concerned simply keeps its prior value.

use vstd::prelude::*;

use crate::config::{parse_toml, toml_tree};
use crate::theme::{
    lemma_theme_load_wf, spec_default_theme, spec_theme_load, theme_wf, Theme,
};

verus! {

#[verifier::external_type_specification]
#[verifier::external_body]
pub struct ExIoError(std::io::Error);

/// An error returned when loading a theme.
#[derive(Debug)]
pub enum LoadError {
    /// A file could not be opened or read.
    Io(std::io::Error),
    /// The configuration text is not well-formed TOML.
    Parse(toml::de::Error),
}

impl From<std::io::Error> for LoadError {
    /// Wrap an I/O failure.
    fn from(err: std::io::Error) -> (r: Self) {
        LoadError::Io(err)
    }
}

impl vstd::std_specs::convert::FromSpecImpl<std::io::Error> for LoadError {
    open spec fn obeys_from_spec() -> bool {
        true
    }

    open spec fn from_spec(err: std::io::Error) -> LoadError {
        LoadError::Io(err)
    }
}

impl From<toml::de::Error> for LoadError {
    /// Wrap a configuration parse failure.
    fn from(err: toml::de::Error) -> (r: Self) {
        LoadError::Parse(err)
    }
}

impl vstd::std_specs::convert::FromSpecImpl<toml::de::Error> for LoadError {
    open spec fn obeys_from_spec() -> bool {
        true
    }

    open spec fn from_spec(err: toml::de::Error) -> LoadError {
        LoadError::Parse(err)
    }
}

/// Loads a theme from configuration text: the default theme with the text's
/// overrides applied on top, or a parse error exactly when the text is not a
/// well-formed TOML document.
pub fn load_theme(content: &str) -> (r: Result<Theme, LoadError>)
    ensures
        r is Ok <==> toml_tree(content@) is Some,
        r is Ok ==> r->Ok_0 == spec_theme_load(spec_default_theme(), toml_tree(content@)->Some_0),
        r is Ok ==> theme_wf(r->Ok_0),
        r is Err ==> r->Err_0 is Parse,
{
    match parse_toml(content) {
        Ok(table) => {
            let mut theme = Theme::default();
            theme.load(&table);
            proof {
                lemma_theme_load_wf(spec_default_theme(), crate::config::table_model(table));
            }
            Ok(theme)
        },
        Err(err) => Err(LoadError::Parse(err)),
    }
}

/// Loads the default theme.
pub fn load_default() -> (r: Theme)
    ensures
        r == spec_default_theme(),
        theme_wf(r),
{
    Theme::default()
}

} // verus!
