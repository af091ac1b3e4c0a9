use crate::utils::id_generator::{parse_uuid, uuid_parse, Id};
use crate::utils::text::{
    concat2, contains, decimal, i64_to_string, is_blank, is_blank_text, is_substring,
};
use vstd::prelude::*;
use vstd::string::StringExecFns;

verus! {

/// The errors of the application, each with the message it was raised with.
#[derive(Debug)]
pub enum DmAssistantError {
    /// Resource not found
    NotFound(String),
    /// Invalid input provided
    InvalidInput(String),
    /// Storage operation failed
    StorageError(String),
    /// Validation failed
    ValidationError(String),
    /// IO operation failed
    IoError(String),
    /// JSON serialization or deserialization failed
    JsonError(String),
    /// General application error
    InternalError(String),
    /// Campaign-related errors
    CampaignError(String),
    /// Character-related errors
    CharacterError(String),
    /// NPC-related errors
    NpcError(String),
    /// Combat-related errors
    CombatError(String),
    /// Quest-related errors
    QuestError(String),
    /// Item and inventory errors
    ItemError(String),
    /// Map-related errors
    MapError(String),
    /// Authentication and authorization errors
    AuthError(String),
}

/// A result whose error is a `DmAssistantError`.
pub type DmResult<T> = Result<T, DmAssistantError>;

/// The kind of an error, without its message.
#[derive(Clone, Copy, Debug, PartialEq, Eq, Structural)]
pub enum ErrorKind {
    NotFound,
    InvalidInput,
    StorageError,
    ValidationError,
    IoError,
    JsonError,
    InternalError,
    CampaignError,
    CharacterError,
    NpcError,
    CombatError,
    QuestError,
    ItemError,
    MapError,
    AuthError,
}

/// An error as contracts see it: its kind and the characters of its message.
pub struct ErrorView {
    pub kind: ErrorKind,
    pub message: Seq<char>,
}

impl View for DmAssistantError {
    type V = ErrorView;

    open spec fn view(&self) -> ErrorView {
        match self {
            DmAssistantError::NotFound(m) => ErrorView { kind: ErrorKind::NotFound, message: m@ },
            DmAssistantError::InvalidInput(m) => ErrorView {
                kind: ErrorKind::InvalidInput,
                message: m@,
            },
            DmAssistantError::StorageError(m) => ErrorView {
                kind: ErrorKind::StorageError,
                message: m@,
            },
            DmAssistantError::ValidationError(m) => ErrorView {
                kind: ErrorKind::ValidationError,
                message: m@,
            },
            DmAssistantError::IoError(m) => ErrorView { kind: ErrorKind::IoError, message: m@ },
            DmAssistantError::JsonError(m) => ErrorView { kind: ErrorKind::JsonError, message: m@ },
            DmAssistantError::InternalError(m) => ErrorView {
                kind: ErrorKind::InternalError,
                message: m@,
            },
            DmAssistantError::CampaignError(m) => ErrorView {
                kind: ErrorKind::CampaignError,
                message: m@,
            },
            DmAssistantError::CharacterError(m) => ErrorView {
                kind: ErrorKind::CharacterError,
                message: m@,
            },
            DmAssistantError::NpcError(m) => ErrorView { kind: ErrorKind::NpcError, message: m@ },
            DmAssistantError::CombatError(m) => ErrorView {
                kind: ErrorKind::CombatError,
                message: m@,
            },
            DmAssistantError::QuestError(m) => ErrorView {
                kind: ErrorKind::QuestError,
                message: m@,
            },
            DmAssistantError::ItemError(m) => ErrorView { kind: ErrorKind::ItemError, message: m@ },
            DmAssistantError::MapError(m) => ErrorView { kind: ErrorKind::MapError, message: m@ },
            DmAssistantError::AuthError(m) => ErrorView { kind: ErrorKind::AuthError, message: m@ },
        }
    }
}

/// The view of an error of the given kind and message.
pub open spec fn failure(kind: ErrorKind, message: Seq<char>) -> ErrorView {
    ErrorView { kind, message }
}

/// The message of a failed lookup by identifier.
pub open spec fn not_found_text(entity: Seq<char>, id: Seq<char>) -> Seq<char> {
    entity + " with ID '"@ + id + "' not found"@
}

/// The words that stand before the message when an error is displayed.
pub open spec fn display_prefix(kind: ErrorKind) -> Seq<char> {
    match kind {
        ErrorKind::NotFound => "Not Found: "@,
        ErrorKind::InvalidInput => "Invalid Input: "@,
        ErrorKind::StorageError => "Storage Error: "@,
        ErrorKind::ValidationError => "Validation Error: "@,
        ErrorKind::IoError => "IO Error: "@,
        ErrorKind::JsonError => "JSON Error: "@,
        ErrorKind::InternalError => "Internal Error: "@,
        ErrorKind::CampaignError => "Campaign Error: "@,
        ErrorKind::CharacterError => "Character Error: "@,
        ErrorKind::NpcError => "NPC Error: "@,
        ErrorKind::CombatError => "Combat Error: "@,
        ErrorKind::QuestError => "Quest Error: "@,
        ErrorKind::ItemError => "Item Error: "@,
        ErrorKind::MapError => "Map Error: "@,
        ErrorKind::AuthError => "Auth Error: "@,
    }
}

/// The tag under which errors of a kind are logged and counted.
pub open spec fn category_text(kind: ErrorKind) -> Seq<char> {
    match kind {
        ErrorKind::NotFound => "not_found"@,
        ErrorKind::InvalidInput => "invalid_input"@,
        ErrorKind::StorageError => "storage"@,
        ErrorKind::ValidationError => "validation"@,
        ErrorKind::IoError => "io"@,
        ErrorKind::JsonError => "json"@,
        ErrorKind::InternalError => "internal"@,
        ErrorKind::CampaignError => "campaign"@,
        ErrorKind::CharacterError => "character"@,
        ErrorKind::NpcError => "npc"@,
        ErrorKind::CombatError => "combat"@,
        ErrorKind::QuestError => "quest"@,
        ErrorKind::ItemError => "item"@,
        ErrorKind::MapError => "map"@,
        ErrorKind::AuthError => "auth"@,
    }
}

/// Whether a caller may retry after an error of this kind: yes after errors of
/// input, validation, storage and the domains, no after a failed lookup, a
/// malformed document, an internal fault or a refusal of access.
pub open spec fn recoverable(kind: ErrorKind) -> bool {
    match kind {
        ErrorKind::NotFound => false,
        ErrorKind::JsonError => false,
        ErrorKind::InternalError => false,
        ErrorKind::AuthError => false,
        _ => true,
    }
}

/// The text shown to the user, in Italian.
pub open spec fn user_text(e: ErrorView) -> Seq<char> {
    match e.kind {
        ErrorKind::NotFound => {
            if is_substring(e.message, "Character"@) {
                "Personaggio non trovato"@
            } else if is_substring(e.message, "Campaign"@) {
                "Campagna non trovata"@
            } else if is_substring(e.message, "NPC"@) {
                "NPC non trovato"@
            } else {
                "Elemento non trovato"@
            }
        },
        ErrorKind::InvalidInput => "Dati inseriti non validi"@,
        ErrorKind::StorageError => "Errore nel salvataggio dei dati"@,
        ErrorKind::ValidationError => "Errore di validazione: "@ + e.message,
        ErrorKind::IoError => "Errore di lettura/scrittura file"@,
        ErrorKind::JsonError => "Errore nel formato dei dati"@,
        ErrorKind::InternalError => "Errore interno dell'applicazione"@,
        ErrorKind::CampaignError => "Errore campagna: "@ + e.message,
        ErrorKind::CharacterError => "Errore personaggio: "@ + e.message,
        ErrorKind::NpcError => "Errore NPC: "@ + e.message,
        ErrorKind::CombatError => "Errore combattimento: "@ + e.message,
        ErrorKind::QuestError => "Errore quest: "@ + e.message,
        ErrorKind::ItemError => "Errore oggetto: "@ + e.message,
        ErrorKind::MapError => "Errore mappa: "@ + e.message,
        ErrorKind::AuthError => "Errore di autorizzazione"@,
    }
}

impl Clone for DmAssistantError {
    fn clone(&self) -> (r: Self)
        ensures
            r@ == self@,
    {
        match self {
            DmAssistantError::NotFound(m) => DmAssistantError::NotFound(m.clone()),
            DmAssistantError::InvalidInput(m) => DmAssistantError::InvalidInput(m.clone()),
            DmAssistantError::StorageError(m) => DmAssistantError::StorageError(m.clone()),
            DmAssistantError::ValidationError(m) => DmAssistantError::ValidationError(m.clone()),
            DmAssistantError::IoError(m) => DmAssistantError::IoError(m.clone()),
            DmAssistantError::JsonError(m) => DmAssistantError::JsonError(m.clone()),
            DmAssistantError::InternalError(m) => DmAssistantError::InternalError(m.clone()),
            DmAssistantError::CampaignError(m) => DmAssistantError::CampaignError(m.clone()),
            DmAssistantError::CharacterError(m) => DmAssistantError::CharacterError(m.clone()),
            DmAssistantError::NpcError(m) => DmAssistantError::NpcError(m.clone()),
            DmAssistantError::CombatError(m) => DmAssistantError::CombatError(m.clone()),
            DmAssistantError::QuestError(m) => DmAssistantError::QuestError(m.clone()),
            DmAssistantError::ItemError(m) => DmAssistantError::ItemError(m.clone()),
            DmAssistantError::MapError(m) => DmAssistantError::MapError(m.clone()),
            DmAssistantError::AuthError(m) => DmAssistantError::AuthError(m.clone()),
        }
    }
}

impl DmAssistantError {
    /// An error of the given kind with the given message.
    pub fn of_kind(kind: ErrorKind, msg: &str) -> (e: Self)
        ensures
            e@ == failure(kind, msg@),
    {
        let m = String::from_str(msg);
        match kind {
            ErrorKind::NotFound => DmAssistantError::NotFound(m),
            ErrorKind::InvalidInput => DmAssistantError::InvalidInput(m),
            ErrorKind::StorageError => DmAssistantError::StorageError(m),
            ErrorKind::ValidationError => DmAssistantError::ValidationError(m),
            ErrorKind::IoError => DmAssistantError::IoError(m),
            ErrorKind::JsonError => DmAssistantError::JsonError(m),
            ErrorKind::InternalError => DmAssistantError::InternalError(m),
            ErrorKind::CampaignError => DmAssistantError::CampaignError(m),
            ErrorKind::CharacterError => DmAssistantError::CharacterError(m),
            ErrorKind::NpcError => DmAssistantError::NpcError(m),
            ErrorKind::CombatError => DmAssistantError::CombatError(m),
            ErrorKind::QuestError => DmAssistantError::QuestError(m),
            ErrorKind::ItemError => DmAssistantError::ItemError(m),
            ErrorKind::MapError => DmAssistantError::MapError(m),
            ErrorKind::AuthError => DmAssistantError::AuthError(m),
        }
    }

    /// The kind of this error.
    pub fn kind(&self) -> (k: ErrorKind)
        ensures
            k == self@.kind,
    {
        match self {
            DmAssistantError::NotFound(_) => ErrorKind::NotFound,
            DmAssistantError::InvalidInput(_) => ErrorKind::InvalidInput,
            DmAssistantError::StorageError(_) => ErrorKind::StorageError,
            DmAssistantError::ValidationError(_) => ErrorKind::ValidationError,
            DmAssistantError::IoError(_) => ErrorKind::IoError,
            DmAssistantError::JsonError(_) => ErrorKind::JsonError,
            DmAssistantError::InternalError(_) => ErrorKind::InternalError,
            DmAssistantError::CampaignError(_) => ErrorKind::CampaignError,
            DmAssistantError::CharacterError(_) => ErrorKind::CharacterError,
            DmAssistantError::NpcError(_) => ErrorKind::NpcError,
            DmAssistantError::CombatError(_) => ErrorKind::CombatError,
            DmAssistantError::QuestError(_) => ErrorKind::QuestError,
            DmAssistantError::ItemError(_) => ErrorKind::ItemError,
            DmAssistantError::MapError(_) => ErrorKind::MapError,
            DmAssistantError::AuthError(_) => ErrorKind::AuthError,
        }
    }

    /// The message this error was raised with.
    pub fn message(&self) -> (m: &str)
        ensures
            m@ == self@.message,
    {
        match self {
            DmAssistantError::NotFound(m) => m.as_str(),
            DmAssistantError::InvalidInput(m) => m.as_str(),
            DmAssistantError::StorageError(m) => m.as_str(),
            DmAssistantError::ValidationError(m) => m.as_str(),
            DmAssistantError::IoError(m) => m.as_str(),
            DmAssistantError::JsonError(m) => m.as_str(),
            DmAssistantError::InternalError(m) => m.as_str(),
            DmAssistantError::CampaignError(m) => m.as_str(),
            DmAssistantError::CharacterError(m) => m.as_str(),
            DmAssistantError::NpcError(m) => m.as_str(),
            DmAssistantError::CombatError(m) => m.as_str(),
            DmAssistantError::QuestError(m) => m.as_str(),
            DmAssistantError::ItemError(m) => m.as_str(),
            DmAssistantError::MapError(m) => m.as_str(),
            DmAssistantError::AuthError(m) => m.as_str(),
        }
    }

    /// The error as it is displayed: the words for its kind, then its message.
    pub fn to_string(&self) -> (s: String)
        ensures
            s@ == display_prefix(self@.kind) + self@.message,
    {
        let prefix = match self {
            DmAssistantError::NotFound(_) => "Not Found: ",
            DmAssistantError::InvalidInput(_) => "Invalid Input: ",
            DmAssistantError::StorageError(_) => "Storage Error: ",
            DmAssistantError::ValidationError(_) => "Validation Error: ",
            DmAssistantError::IoError(_) => "IO Error: ",
            DmAssistantError::JsonError(_) => "JSON Error: ",
            DmAssistantError::InternalError(_) => "Internal Error: ",
            DmAssistantError::CampaignError(_) => "Campaign Error: ",
            DmAssistantError::CharacterError(_) => "Character Error: ",
            DmAssistantError::NpcError(_) => "NPC Error: ",
            DmAssistantError::CombatError(_) => "Combat Error: ",
            DmAssistantError::QuestError(_) => "Quest Error: ",
            DmAssistantError::ItemError(_) => "Item Error: ",
            DmAssistantError::MapError(_) => "Map Error: ",
            DmAssistantError::AuthError(_) => "Auth Error: ",
        };
        concat2(prefix, self.message())
    }

    /// A failed lookup of `entity` by `id`.
    pub fn not_found(entity: &str, id: &str) -> (e: Self)
        ensures
            e@ == failure(ErrorKind::NotFound, not_found_text(entity@, id@)),
    {
        let mut m = String::from_str(entity);
        m.append(" with ID '");
        m.append(id);
        m.append("' not found");
        DmAssistantError::NotFound(m)
    }

    /// A failed lookup, with a message of the caller's.
    pub fn not_found_msg(msg: &str) -> (e: Self)
        ensures
            e@ == failure(ErrorKind::NotFound, msg@),
    {
        DmAssistantError::NotFound(String::from_str(msg))
    }

    /// Input that cannot be used.
    pub fn invalid_input(msg: &str) -> (e: Self)
        ensures
            e@ == failure(ErrorKind::InvalidInput, msg@),
    {
        DmAssistantError::InvalidInput(String::from_str(msg))
    }

    /// Input that breaks a rule.
    pub fn validation(msg: &str) -> (e: Self)
        ensures
            e@ == failure(ErrorKind::ValidationError, msg@),
    {
        DmAssistantError::ValidationError(String::from_str(msg))
    }

    /// A failure to store or to load.
    pub fn storage(msg: &str) -> (e: Self)
        ensures
            e@ == failure(ErrorKind::StorageError, msg@),
    {
        DmAssistantError::StorageError(String::from_str(msg))
    }

    /// A fault of the application itself.
    pub fn internal(msg: &str) -> (e: Self)
        ensures
            e@ == failure(ErrorKind::InternalError, msg@),
    {
        DmAssistantError::InternalError(String::from_str(msg))
    }

    /// A rule of campaigns that stands in the way.
    pub fn campaign(msg: &str) -> (e: Self)
        ensures
            e@ == failure(ErrorKind::CampaignError, msg@),
    {
        DmAssistantError::CampaignError(String::from_str(msg))
    }

    /// A rule of characters that stands in the way.
    pub fn character(msg: &str) -> (e: Self)
        ensures
            e@ == failure(ErrorKind::CharacterError, msg@),
    {
        DmAssistantError::CharacterError(String::from_str(msg))
    }

    /// A rule of NPCs that stands in the way.
    pub fn npc(msg: &str) -> (e: Self)
        ensures
            e@ == failure(ErrorKind::NpcError, msg@),
    {
        DmAssistantError::NpcError(String::from_str(msg))
    }

    /// A rule of combat that stands in the way.
    pub fn combat(msg: &str) -> (e: Self)
        ensures
            e@ == failure(ErrorKind::CombatError, msg@),
    {
        DmAssistantError::CombatError(String::from_str(msg))
    }

    /// A rule of quests that stands in the way.
    pub fn quest(msg: &str) -> (e: Self)
        ensures
            e@ == failure(ErrorKind::QuestError, msg@),
    {
        DmAssistantError::QuestError(String::from_str(msg))
    }

    /// A rule of items that stands in the way.
    pub fn item(msg: &str) -> (e: Self)
        ensures
            e@ == failure(ErrorKind::ItemError, msg@),
    {
        DmAssistantError::ItemError(String::from_str(msg))
    }

    /// A rule of maps that stands in the way.
    pub fn map(msg: &str) -> (e: Self)
        ensures
            e@ == failure(ErrorKind::MapError, msg@),
    {
        DmAssistantError::MapError(String::from_str(msg))
    }

    /// A refusal of access.
    pub fn auth(msg: &str) -> (e: Self)
        ensures
            e@ == failure(ErrorKind::AuthError, msg@),
    {
        DmAssistantError::AuthError(String::from_str(msg))
    }

    /// A document that cannot be read or written.
    pub fn json(msg: &str) -> (e: Self)
        ensures
            e@ == failure(ErrorKind::JsonError, msg@),
    {
        DmAssistantError::JsonError(String::from_str(msg))
    }

    /// A failed read or write.
    pub fn io(msg: &str) -> (e: Self)
        ensures
            e@ == failure(ErrorKind::IoError, msg@),
    {
        DmAssistantError::IoError(String::from_str(msg))
    }

    /// The tag under which this error is logged and counted.
    pub fn category(&self) -> (tag: &'static str)
        ensures
            tag@ == category_text(self@.kind),
    {
        match self {
            DmAssistantError::NotFound(_) => "not_found",
            DmAssistantError::InvalidInput(_) => "invalid_input",
            DmAssistantError::StorageError(_) => "storage",
            DmAssistantError::ValidationError(_) => "validation",
            DmAssistantError::IoError(_) => "io",
            DmAssistantError::JsonError(_) => "json",
            DmAssistantError::InternalError(_) => "internal",
            DmAssistantError::CampaignError(_) => "campaign",
            DmAssistantError::CharacterError(_) => "character",
            DmAssistantError::NpcError(_) => "npc",
            DmAssistantError::CombatError(_) => "combat",
            DmAssistantError::QuestError(_) => "quest",
            DmAssistantError::ItemError(_) => "item",
            DmAssistantError::MapError(_) => "map",
            DmAssistantError::AuthError(_) => "auth",
        }
    }

    /// The text shown to the user, in Italian.
    pub fn user_message(&self) -> (s: String)
        ensures
            s@ == user_text(self@),
    {
        match self {
            DmAssistantError::NotFound(msg) => {
                if contains(msg.as_str(), "Character") {
                    String::from_str("Personaggio non trovato")
                } else if contains(msg.as_str(), "Campaign") {
                    String::from_str("Campagna non trovata")
                } else if contains(msg.as_str(), "NPC") {
                    String::from_str("NPC non trovato")
                } else {
                    String::from_str("Elemento non trovato")
                }
            },
            DmAssistantError::InvalidInput(_) => String::from_str("Dati inseriti non validi"),
            DmAssistantError::StorageError(_) => String::from_str(
                "Errore nel salvataggio dei dati",
            ),
            DmAssistantError::ValidationError(msg) => concat2(
                "Errore di validazione: ",
                msg.as_str(),
            ),
            DmAssistantError::IoError(_) => String::from_str("Errore di lettura/scrittura file"),
            DmAssistantError::JsonError(_) => String::from_str("Errore nel formato dei dati"),
            DmAssistantError::InternalError(_) => String::from_str(
                "Errore interno dell'applicazione",
            ),
            DmAssistantError::CampaignError(msg) => concat2("Errore campagna: ", msg.as_str()),
            DmAssistantError::CharacterError(msg) => concat2("Errore personaggio: ", msg.as_str()),
            DmAssistantError::NpcError(msg) => concat2("Errore NPC: ", msg.as_str()),
            DmAssistantError::CombatError(msg) => concat2("Errore combattimento: ", msg.as_str()),
            DmAssistantError::QuestError(msg) => concat2("Errore quest: ", msg.as_str()),
            DmAssistantError::ItemError(msg) => concat2("Errore oggetto: ", msg.as_str()),
            DmAssistantError::MapError(msg) => concat2("Errore mappa: ", msg.as_str()),
            DmAssistantError::AuthError(_) => String::from_str("Errore di autorizzazione"),
        }
    }

    /// Tells whether the caller may retry after this error.
    pub fn is_recoverable(&self) -> (b: bool)
        ensures
            b == recoverable(self@.kind),
    {
        match self {
            DmAssistantError::NotFound(_) => false,
            DmAssistantError::JsonError(_) => false,
            DmAssistantError::InternalError(_) => false,
            DmAssistantError::AuthError(_) => false,
            _ => true,
        }
    }
}

/// The `Display` of `uuid::Error`: the crate's own words for what is wrong
/// with a text. Nothing is claimed of them.
#[verifier::external_body]
fn uuid_error_text(e: &uuid::Error) -> (text: String) {
    e.to_string()
}

/// The `Display` of `serde_json::Error`: the crate's own words for what is
/// wrong with a document. Nothing is claimed of them.
#[verifier::external_body]
fn json_error_text(e: &serde_json::Error) -> (text: String) {
    e.to_string()
}

/// The error that serde_json reports for a document it cannot read or write.
#[verifier::external_type_specification]
#[verifier::external_body]
pub struct ExJsonError(serde_json::Error);

impl vstd::std_specs::convert::FromSpecImpl<uuid::Error> for DmAssistantError {
    open spec fn obeys_from_spec() -> bool {
        false
    }

    open spec fn from_spec(e: uuid::Error) -> Self {
        arbitrary()
    }
}

impl From<uuid::Error> for DmAssistantError {
    /// An identifier that the uuid crate could not read is invalid input; the
    /// message holds the crate's words for what is wrong.
    fn from(error: uuid::Error) -> (e: Self)
        ensures
            e@.kind == ErrorKind::InvalidInput,
            "Invalid UUID: "@.is_prefix_of(e@.message),
    {
        let text = uuid_error_text(&error);
        let m = concat2("Invalid UUID: ", text.as_str());
        assert(m@.subrange(0, "Invalid UUID: "@.len() as int) =~= "Invalid UUID: "@);
        DmAssistantError::InvalidInput(m)
    }
}

impl vstd::std_specs::convert::FromSpecImpl<serde_json::Error> for DmAssistantError {
    open spec fn obeys_from_spec() -> bool {
        false
    }

    open spec fn from_spec(e: serde_json::Error) -> Self {
        arbitrary()
    }
}

impl From<serde_json::Error> for DmAssistantError {
    /// A document that serde_json could not read or write is a JSON error; the
    /// message is the crate's words for what is wrong.
    fn from(error: serde_json::Error) -> (e: Self)
        ensures
            e@.kind == ErrorKind::JsonError,
    {
        DmAssistantError::JsonError(json_error_text(&error))
    }
}

/// The `Display` of `std::io::Error`: the words of the operating system or of
/// std for what went wrong. Nothing is claimed of them.
#[verifier::external_body]
fn io_error_text(e: &std::io::Error) -> (text: String) {
    e.to_string()
}

/// The error that std reports for a failed input or output operation.
#[verifier::external_type_specification]
#[verifier::external_body]
pub struct ExIoError(std::io::Error);

impl vstd::std_specs::convert::FromSpecImpl<std::io::Error> for DmAssistantError {
    open spec fn obeys_from_spec() -> bool {
        false
    }

    open spec fn from_spec(e: std::io::Error) -> Self {
        arbitrary()
    }
}

impl From<std::io::Error> for DmAssistantError {
    /// A failed input or output operation is an IO error; the message is the
    /// words that std has for it.
    fn from(error: std::io::Error) -> (e: Self)
        ensures
            e@.kind == ErrorKind::IoError,
    {
        DmAssistantError::IoError(io_error_text(&error))
    }
}

/// The message of an identifier that cannot be read.
pub open spec fn invalid_id_text(entity_name: Seq<char>) -> Seq<char> {
    "Invalid "@ + entity_name + " ID format"@
}

/// The message of a field that holds nothing but whitespace.
pub open spec fn empty_field_text(field_name: Seq<char>) -> Seq<char> {
    field_name + " cannot be empty"@
}

/// The message of a number outside its range.
pub open spec fn out_of_range_text(field_name: Seq<char>, min: int, max: int) -> Seq<char> {
    field_name + " must be between "@ + decimal(min) + " and "@ + decimal(max)
}

/// Reads `id` as an identifier, or fails with `InvalidInput`.
pub fn validate_uuid(id: &str, entity_name: &str) -> (r: DmResult<Id>)
    ensures
        match uuid_parse(id@) {
            Some(parsed) => r == Ok::<Id, DmAssistantError>(parsed),
            None => r matches Err(e) && e@ == failure(
                ErrorKind::InvalidInput,
                invalid_id_text(entity_name@),
            ),
        },
{
    match parse_uuid(id) {
        Ok(parsed) => Ok(parsed),
        Err(_) => {
            let mut m = String::from_str("Invalid ");
            m.append(entity_name);
            m.append(" ID format");
            Err(DmAssistantError::InvalidInput(m))
        },
    }
}

/// Accepts a text that holds something other than whitespace.
pub fn validate_non_empty(value: &str, field_name: &str) -> (r: DmResult<()>)
    ensures
        match r {
            Ok(_) => !is_blank(value@),
            Err(e) => is_blank(value@) && e@ == failure(
                ErrorKind::ValidationError,
                empty_field_text(field_name@),
            ),
        },
{
    if is_blank_text(value) {
        Err(DmAssistantError::ValidationError(concat2(field_name, " cannot be empty")))
    } else {
        Ok(())
    }
}

/// Accepts a number that lies between `min` and `max`, both included.
pub fn validate_range(value: i64, min: i64, max: i64, field_name: &str) -> (r: DmResult<()>)
    ensures
        match r {
            Ok(_) => min <= value <= max,
            Err(e) => !(min <= value <= max) && e@ == failure(
                ErrorKind::ValidationError,
                out_of_range_text(field_name@, min as int, max as int),
            ),
        },
{
    if value < min || value > max {
        let mut m = String::from_str(field_name);
        m.append(" must be between ");
        m.append(i64_to_string(min).as_str());
        m.append(" and ");
        m.append(i64_to_string(max).as_str());
        Err(DmAssistantError::ValidationError(m))
    } else {
        Ok(())
    }
}

} // verus!
