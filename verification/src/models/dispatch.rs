//! Messages from high command as the client hands them on.

use vstd::prelude::*;

verus! {

/// A message that can either be a simple String or a LocalizedMessage.
#[derive(Debug, PartialEq, Eq)]
pub enum Message {
    /// One text for every reader.
    Simple(String),
    /// A text for each language that has one.
    Localized(LocalizedMessage),
}

/// A localized message for a specific language.
#[allow(non_snake_case)]
#[derive(Debug, PartialEq, Eq)]
pub struct LocalizedMessage {
    /// The message in en-US.
    pub en_US: Option<String>,
    /// The message in de-DE.
    pub de_DE: Option<String>,
    /// The message in es-ES.
    pub es_ES: Option<String>,
    /// The message in ru-RU.
    pub ru_RU: Option<String>,
    /// The message in fr-FR.
    pub fr_FR: Option<String>,
    /// The message in it-IT.
    pub it_IT: Option<String>,
    /// The message in pl-PL.
    pub pl_PL: Option<String>,
    /// The message in zh-Hans.
    pub zh_Hans: Option<String>,
    /// The message in zh-Hant.
    pub zh_Hant: Option<String>,
}

} // verus!
