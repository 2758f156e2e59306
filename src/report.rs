use vstd::prelude::*;

use crate::ensure::Scope;

verus! {

/// What a corruption report tells its readers.
pub const CORRUPT_STATS_DESCRIPTION: &'static str = "The backend detected an invalid statistic document while uploading a bundle.\nIt is likely a minigame has changed the type of one of its stored statistics.\nThe affected document(s) have been backed up and removed from the database.\n";

/// A notice of a quarantined counter document, for the notification sink.
pub struct CorruptionReport {
    pub title: String,
    pub description: String,
    /// Labelled fields: the namespace, whether the document was network-wide,
    /// and the id of its quarantine copy.
    pub fields: Vec<(String, String)>,
}

pub open spec fn scope_label(scope: Scope) -> Seq<char> {
    if scope is Global {
        "true"@
    } else {
        "false"@
    }
}

/// The report of a quarantined document of `namespace` and `scope`, whose copy
/// was stored under `backup_id`.
pub fn corruption_report(namespace: &String, scope: Scope, backup_id: String) -> (r:
    CorruptionReport)
    ensures
        r.title@ == ":warning: Corrupt stats document"@,
        r.description@ == CORRUPT_STATS_DESCRIPTION@,
        r.fields@.len() == 3,
        r.fields@[0].0@ == "Statistic namespace"@,
        r.fields@[0].1@ == namespace@,
        r.fields@[1].0@ == "Global statistic?"@,
        r.fields@[1].1@ == scope_label(scope),
        r.fields@[2].0@ == "Document backup ID"@,
        r.fields@[2].1 == backup_id,
{
    let global = match scope {
        Scope::Global => "true".to_owned(),
        Scope::Player(_) => "false".to_owned(),
    };
    let mut fields: Vec<(String, String)> = Vec::new();
    fields.push(("Statistic namespace".to_owned(), namespace.clone()));
    fields.push(("Global statistic?".to_owned(), global));
    fields.push(("Document backup ID".to_owned(), backup_id));
    CorruptionReport {
        title: ":warning: Corrupt stats document".to_owned(),
        description: CORRUPT_STATS_DESCRIPTION.to_owned(),
        fields,
    }
}

} // verus!
