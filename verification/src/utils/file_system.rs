use crate::utils::clock::{calendar_now, CalendarTime};
use crate::utils::id_generator::{hyphenated, uuid_text, Id};
use crate::utils::text::{fixed_width, fixed_width_text, is_digit, lemma_fixed_width};
use vstd::prelude::*;
use vstd::string::StringExecFns;

verus! {

/// The name of the file that holds all campaigns and the app settings,
/// below the data directory of the application.
pub const CAMPAIGNS_FILE: &'static str = "campaigns.json";

/// The name of the directory that holds one directory for each campaign.
pub const CAMPAIGNS_DIR: &'static str = "campaigns";

/// The name of the file that holds the characters of a campaign, in the
/// directory of that campaign.
pub const CHARACTERS_FILE: &'static str = "characters.json";

/// Where the characters of a campaign are kept, below the data directory:
/// `campaigns/<identifier>/characters.json`.
pub open spec fn characters_path(campaign_id: Id) -> Seq<char> {
    "campaigns/"@ + hyphenated(campaign_id) + "/characters.json"@
}

/// The name of a backup of a file: the name of the file without its
/// extension, then `.backup_`, the time stamp, and `.json`.
pub open spec fn backup_name(stem: Seq<char>, stamp: Seq<char>) -> Seq<char> {
    stem + ".backup_"@ + stamp + ".json"@
}

/// The report of a store of characters, with the place of the backup or
/// the words `backup failed` where none could be made.
pub open spec fn saved_report(backup: Option<&str>) -> Seq<char> {
    "Characters saved successfully. Backup created at: "@ + match backup {
        Some(path) => path@,
        None => "backup failed"@,
    }
}

/// Where the characters of a campaign are kept, below the data directory.
pub fn characters_file_path(campaign_id: &Id) -> (path: String)
    ensures
        path@ == characters_path(*campaign_id),
{
    let mut path = String::from_str("campaigns/");
    path.append(uuid_text(*campaign_id).as_str());
    path.append("/characters.json");
    path
}

/// The stamp of a backup made at the time `t`: year, month, day, hour,
/// minute and second, written as four and five times two digits.
pub open spec fn stamp_text(t: CalendarTime) -> Seq<char> {
    fixed_width(t.year as nat, 4) + fixed_width(t.month as nat, 2) + fixed_width(t.day as nat, 2)
        + fixed_width(t.hour as nat, 2) + fixed_width(t.minute as nat, 2) + fixed_width(
        t.second as nat,
        2,
    )
}

/// A stamp is fourteen digits long.
pub proof fn lemma_stamp_shape(t: CalendarTime)
    ensures
        stamp_text(t).len() == 14,
        forall|i: int| 0 <= i < 14 ==> is_digit(#[trigger] stamp_text(t)[i]),
{
    lemma_fixed_width(t.year as nat, 4);
    lemma_fixed_width(t.month as nat, 2);
    lemma_fixed_width(t.day as nat, 2);
    lemma_fixed_width(t.hour as nat, 2);
    lemma_fixed_width(t.minute as nat, 2);
    lemma_fixed_width(t.second as nat, 2);
}

/// The stamp of a backup made at the time `t`, or `None` where a field of
/// `t` lies outside its range.
pub fn backup_stamp(t: &CalendarTime) -> (stamp: Option<String>)
    ensures
        match stamp {
            Some(s) => t.valid() && s@ == stamp_text(*t) && s@.len() == 14,
            None => !t.valid(),
        },
{
    if !t.is_valid() {
        return None;
    }
    let mut s = fixed_width_text(t.year as u64, 4);
    s.append(fixed_width_text(t.month as u64, 2).as_str());
    s.append(fixed_width_text(t.day as u64, 2).as_str());
    s.append(fixed_width_text(t.hour as u64, 2).as_str());
    s.append(fixed_width_text(t.minute as u64, 2).as_str());
    s.append(fixed_width_text(t.second as u64, 2).as_str());
    proof {
        lemma_stamp_shape(*t);
    }
    Some(s)
}

/// The stamp of a backup made at the present time, or `None` where the
/// calendar gives the present year more than four digits.
pub fn backup_stamp_now() -> (stamp: Option<String>)
    ensures
        stamp matches Some(s) ==> exists|t: CalendarTime|
            t.valid() && s@ == #[trigger] stamp_text(t),
{
    let t = calendar_now();
    backup_stamp(&t)
}

/// The name of a backup of the file with the given stem, made at the time
/// that `stamp` writes out.
pub fn backup_file_name(stem: &str, stamp: &str) -> (name: String)
    ensures
        name@ == backup_name(stem@, stamp@),
{
    let mut name = String::from_str(stem);
    name.append(".backup_");
    name.append(stamp);
    name.append(".json");
    name
}

/// The report of a backup of the campaigns that was made at `path`.
pub fn backup_report(path: &str) -> (report: String)
    ensures
        report@ == "Campaigns backed up successfully to: "@ + path@,
{
    let mut report = String::from_str("Campaigns backed up successfully to: ");
    report.append(path);
    report
}

/// The report of a store of characters. A backup is advisory: where none
/// could be made the store still counts as done, and the report says so.
pub fn characters_saved_report(backup: Option<&str>) -> (report: String)
    ensures
        report@ == saved_report(backup),
{
    let mut report = String::from_str("Characters saved successfully. Backup created at: ");
    match backup {
        Some(path) => report.append(path),
        None => report.append("backup failed"),
    }
    report
}

/// The outcome of one file operation of a batch.
#[derive(Debug)]
pub struct FileOperationResult {
    pub success: bool,
    pub file_path: String,
    pub error_message: Option<String>,
}

impl Clone for FileOperationResult {
    fn clone(&self) -> (r: Self)
        ensures
            r == *self,
    {
        FileOperationResult {
            success: self.success,
            file_path: self.file_path.clone(),
            error_message: match &self.error_message {
                Some(m) => Some(m.clone()),
                None => None,
            },
        }
    }
}

impl FileOperationResult {
    /// The outcome of an operation on `file_path` that went well.
    pub fn success(file_path: String) -> (r: Self)
        ensures
            r.success,
            r.file_path == file_path,
            r.error_message is None,
    {
        FileOperationResult { success: true, file_path, error_message: None }
    }

    /// The outcome of an operation on `file_path` that failed with `error`.
    pub fn error(file_path: String, error: String) -> (r: Self)
        ensures
            !r.success,
            r.file_path == file_path,
            r.error_message == Some(error),
    {
        FileOperationResult { success: false, file_path, error_message: Some(error) }
    }
}

} // verus!
