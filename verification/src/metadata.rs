//! The metadata service: modules and their lectures as the database keeps them, and what
//! the service answers from them.
use vstd::prelude::*;
use crate::messages::{GetModulesNamesRes, GetModulesRes, MetadataLecture, MetadataModule};
use crate::status::{status_is, Status, StatusCode};

verus! {

/// A module as the database keeps it.
pub struct MongoMetadataModule {
    pub name: String,
    pub lectures: Vec<MongoMetadataLecture>,
}

/// A lecture as the database keeps it.
pub struct MongoMetadataLecture {
    pub name: String,
    pub lecture_id: String,
    pub summary: String,
}

/// `m` is the lecture `l` as the service hands it out.
pub open spec fn lecture_is(m: MetadataLecture, l: MongoMetadataLecture) -> bool {
    m.name@ == l.name@ && m.lecture_id@ == l.lecture_id@ && m.summary@ == l.summary@
}

/// `m` is the module `d` as the service hands it out: same name, same lectures in the same
/// order.
pub open spec fn module_is(m: MetadataModule, d: MongoMetadataModule) -> bool {
    &&& m.name@ == d.name@
    &&& m.lectures@.len() == d.lectures@.len()
    &&& forall|i: int| 0 <= i < d.lectures@.len() ==> lecture_is(#[trigger] m.lectures@[i], d.lectures@[i])
}

impl MetadataLecture {
    /// The lecture as the service hands it out.
    pub fn from_mongo(value: &MongoMetadataLecture) -> (m: MetadataLecture)
        ensures
            lecture_is(m, *value),
    {
        MetadataLecture {
            name: value.name.clone(),
            lecture_id: value.lecture_id.clone(),
            summary: value.summary.clone(),
        }
    }
}

impl MetadataModule {
    /// The module as the service hands it out.
    pub fn from_mongo(value: &MongoMetadataModule) -> (m: MetadataModule)
        ensures
            module_is(m, *value),
    {
        let mut lectures: Vec<MetadataLecture> = Vec::new();
        let mut i: usize = 0;
        while i < value.lectures.len()
            invariant
                i <= value.lectures@.len(),
                lectures@.len() == i,
                forall|j: int| 0 <= j < i ==> lecture_is(#[trigger] lectures@[j], value.lectures@[j]),
            decreases value.lectures@.len() - i,
        {
            lectures.push(MetadataLecture::from_mongo(&value.lectures[i]));
            i = i + 1;
        }
        MetadataModule { name: value.name.clone(), lectures }
    }
}

/// The names of the given modules, one per module, in the same order.
pub fn module_names(modules: &Vec<MongoMetadataModule>) -> (names: Vec<String>)
    ensures
        names@.len() == modules@.len(),
        forall|i: int| 0 <= i < modules@.len() ==> #[trigger] names@[i]@ == modules@[i].name@,
{
    let mut names: Vec<String> = Vec::new();
    let mut i: usize = 0;
    while i < modules.len()
        invariant
            i <= modules@.len(),
            names@.len() == i,
            forall|j: int| 0 <= j < i ==> #[trigger] names@[j]@ == modules@[j].name@,
        decreases modules@.len() - i,
    {
        names.push(modules[i].name.clone());
        i = i + 1;
    }
    names
}

/// The given modules as the service hands them out, in the same order.
pub fn metadata_modules(modules: &Vec<MongoMetadataModule>) -> (out: Vec<MetadataModule>)
    ensures
        out@.len() == modules@.len(),
        forall|i: int| 0 <= i < modules@.len() ==> module_is(#[trigger] out@[i], modules@[i]),
{
    let mut out: Vec<MetadataModule> = Vec::new();
    let mut i: usize = 0;
    while i < modules.len()
        invariant
            i <= modules@.len(),
            out@.len() == i,
            forall|j: int| 0 <= j < i ==> module_is(#[trigger] out@[j], modules@[j]),
        decreases modules@.len() - i,
    {
        out.push(MetadataModule::from_mongo(&modules[i]));
        i = i + 1;
    }
    out
}

fn internal_with(prefix: &str, detail: String) -> (s: Status)
    ensures
        status_is(s, StatusCode::Internal, prefix@ + detail@),
{
    let mut message = String::from_str(prefix);
    message.append(detail.as_str());
    Status::new(StatusCode::Internal, message)
}

/// The answer to "the names of all modules", given what the database read gave: the names,
/// or an internal error that carries the database's message.
pub fn get_modules_names(fetched: Result<Vec<String>, String>) -> (r: Result<
    GetModulesNamesRes,
    Status,
>)
    ensures
        match fetched {
            Ok(names) => r matches Ok(res) && res.names == names,
            Err(e) => r matches Err(s) && status_is(
                s,
                StatusCode::Internal,
                "Could not retrieve module names: "@ + e@,
            ),
        },
{
    match fetched {
        Ok(names) => Ok(GetModulesNamesRes { names }),
        Err(e) => Err(internal_with("Could not retrieve module names: ", e)),
    }
}

/// The answer to "all modules with their lectures", given what the database read gave.
pub fn get_modules(fetched: Result<Vec<MetadataModule>, String>) -> (r: Result<
    GetModulesRes,
    Status,
>)
    ensures
        match fetched {
            Ok(modules) => r matches Ok(res) && res.modules == modules,
            Err(e) => r matches Err(s) && status_is(
                s,
                StatusCode::Internal,
                "Could not retrieve modules: "@ + e@,
            ),
        },
{
    match fetched {
        Ok(modules) => Ok(GetModulesRes { modules }),
        Err(e) => Err(internal_with("Could not retrieve modules: ", e)),
    }
}

/// The answer to "delete this lecture", given what the database deletion gave.
pub fn delete_lecture(deleted: Result<(), String>) -> (r: Result<(), Status>)
    ensures
        match deleted {
            Ok(()) => r is Ok,
            Err(e) => r matches Err(s) && status_is(
                s,
                StatusCode::Internal,
                "Could not delete lecture "@ + e@,
            ),
        },
{
    match deleted {
        Ok(()) => Ok(()),
        Err(e) => Err(internal_with("Could not delete lecture ", e)),
    }
}

/// Whether a deletion that removed `deleted_count` documents deserves a warning: anything
/// but exactly one removed lecture does.
pub fn deletion_is_unexpected(deleted_count: u64) -> (b: bool)
    ensures
        b == (deleted_count != 1),
{
    deleted_count != 1
}

} // verus!
