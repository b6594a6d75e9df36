//! The persisted records and the pure part of their handlers: the
//! validation a create or update performs, the merge a patch performs,
//! and the construction of a fresh pending run.

use vstd::prelude::*;
use crate::clock::now_seconds;
use crate::facade::CreateRunRequest;
use crate::naming::fresh_run_id;
use crate::text::trim_seq;
use crate::validation::{
    acceptable_commands, acceptable_description, acceptable_image, acceptable_labels,
    acceptable_mode, acceptable_name, commands_error, description_error, image_error, labels_error,
    mode_error, name_error, sanitize_commands, sanitize_commands_seq, sanitize_description,
    sanitize_labels, sanitize_labels_seq, sanitize_name, validate_docker_image,
    validate_execution_mode,
};
use crate::validation::{escape_seq, lower_of};

verus! {

/// A stored test definition.
#[derive(Debug)]
pub struct DefinitionRecord {
    pub id: u128,
    pub name: String,
    pub description: Option<String>,
    pub image: String,
    pub commands: Vec<String>,
    pub created_at: Option<i64>,
    pub executor_id: Option<u128>,
    pub source: Option<String>,
}

/// A partial update of a definition: an absent field keeps the stored
/// value; a doubled option can clear the stored value.
#[derive(Debug)]
pub struct PatchDefinition {
    pub name: Option<String>,
    pub description: Option<Option<String>>,
    pub image: Option<String>,
    pub commands: Option<Vec<String>>,
    pub executor_id: Option<Option<u128>>,
    pub source: Option<Option<String>>,
}

/// The validated fields a definition create or update carries.
#[derive(Debug)]
pub struct DefinitionFields {
    pub name: String,
    pub description: Option<String>,
    pub image: String,
    pub commands: Vec<String>,
}

/// Validates the fields of a definition, in the order name, description,
/// image, commands; the first rejected field decides the error.
pub fn validate_definition(
    name: &str,
    description: &Option<String>,
    image: &str,
    commands: &Vec<String>,
) -> (r: Result<DefinitionFields, String>)
    ensures
        match r {
            Ok(f) => {
                &&& acceptable_name(name@) && f.name@ == trim_seq(name@)
                &&& (match description {
                    Some(d) => acceptable_description(d@) && (f.description matches Some(fd)
                        && fd@ == trim_seq(escape_seq(d@))),
                    None => f.description is None,
                })
                &&& acceptable_image(image@) && f.image@ == trim_seq(image@)
                &&& acceptable_commands(commands.deep_view()) && sanitize_commands_seq(
                    commands.deep_view(),
                ) == Ok::<Seq<Seq<char>>, Seq<char>>(f.commands.deep_view())
            },
            Err(e) => {
                ||| (!acceptable_name(name@) && e@ == name_error(name@))
                ||| {
                    &&& acceptable_name(name@)
                    &&& (description matches Some(d) && !acceptable_description(d@) && e@
                        == description_error(d@))
                }
                ||| {
                    &&& acceptable_name(name@)
                    &&& (match description {
                        Some(d) => acceptable_description(d@),
                        None => true,
                    })
                    &&& !acceptable_image(image@) && e@ == image_error(image@)
                }
                ||| {
                    &&& acceptable_name(name@)
                    &&& (match description {
                        Some(d) => acceptable_description(d@),
                        None => true,
                    })
                    &&& acceptable_image(image@)
                    &&& !acceptable_commands(commands.deep_view()) && e@ == commands_error(
                        commands.deep_view(),
                    )
                }
            },
        },
{
    let name = match sanitize_name(name) {
        Ok(v) => v,
        Err(e) => {
            return Err(e);
        },
    };
    let description = match description {
        Some(d) => {
            match sanitize_description(d.as_str()) {
                Ok(v) => Some(v),
                Err(e) => {
                    return Err(e);
                },
            }
        },
        None => None,
    };
    let image = match validate_docker_image(image) {
        Ok(v) => v,
        Err(e) => {
            return Err(e);
        },
    };
    let commands = match sanitize_commands(commands) {
        Ok(v) => v,
        Err(e) => {
            return Err(e);
        },
    };
    Ok(DefinitionFields { name, description, image, commands })
}

/// Applies a patch to a stored definition: a present field replaces the
/// stored one, an absent field keeps it; identity and creation time
/// never change. A patch is applied as given, without re-validation.
pub fn merge_definition_patch(current: DefinitionRecord, patch: PatchDefinition) -> (r:
    DefinitionRecord)
    ensures
        r.id == current.id,
        r.created_at == current.created_at,
        r.name == (match patch.name {
            Some(n) => n,
            None => current.name,
        }),
        r.description == (match patch.description {
            Some(d) => d,
            None => current.description,
        }),
        r.image == (match patch.image {
            Some(i) => i,
            None => current.image,
        }),
        r.commands == (match patch.commands {
            Some(c) => c,
            None => current.commands,
        }),
        r.executor_id == (match patch.executor_id {
            Some(x) => x,
            None => current.executor_id,
        }),
        r.source == (match patch.source {
            Some(s) => s,
            None => current.source,
        }),
{
    DefinitionRecord {
        id: current.id,
        name: match patch.name {
            Some(n) => n,
            None => current.name,
        },
        description: match patch.description {
            Some(d) => d,
            None => current.description,
        },
        image: match patch.image {
            Some(i) => i,
            None => current.image,
        },
        commands: match patch.commands {
            Some(c) => c,
            None => current.commands,
        },
        created_at: current.created_at,
        executor_id: match patch.executor_id {
            Some(x) => x,
            None => current.executor_id,
        },
        source: match patch.source {
            Some(s) => s,
            None => current.source,
        },
    }
}

/// A stored test suite.
#[derive(Debug)]
pub struct SuiteRecord {
    pub id: u128,
    pub name: String,
    pub description: Option<String>,
    pub execution_mode: String,
    pub labels: Vec<String>,
    pub test_definition_ids: Vec<u128>,
    pub created_at: Option<i64>,
}

/// A partial update of a suite.
#[derive(Debug)]
pub struct PatchSuite {
    pub name: Option<String>,
    pub description: Option<Option<String>>,
    pub execution_mode: Option<String>,
    pub labels: Option<Vec<String>>,
    pub test_definition_ids: Option<Vec<u128>>,
}

/// The validated fields a suite create or update carries.
#[derive(Debug)]
pub struct SuiteFields {
    pub name: String,
    pub description: Option<String>,
    pub execution_mode: String,
    pub labels: Vec<String>,
}

/// Validates the fields of a suite, in the order name, description,
/// execution mode, labels; the first rejected field decides the error.
pub fn validate_suite(
    name: &str,
    description: &Option<String>,
    execution_mode: &str,
    labels: &Vec<String>,
) -> (r: Result<SuiteFields, String>)
    ensures
        match r {
            Ok(f) => {
                &&& acceptable_name(name@) && f.name@ == trim_seq(name@)
                &&& (match description {
                    Some(d) => acceptable_description(d@) && (f.description matches Some(fd)
                        && fd@ == trim_seq(escape_seq(d@))),
                    None => f.description is None,
                })
                &&& acceptable_mode(execution_mode@) && f.execution_mode@ == lower_of(
                    execution_mode@,
                )
                &&& acceptable_labels(labels.deep_view()) && sanitize_labels_seq(
                    labels.deep_view(),
                    Seq::empty(),
                ) == Ok::<Seq<Seq<char>>, Seq<char>>(f.labels.deep_view())
            },
            Err(e) => {
                ||| (!acceptable_name(name@) && e@ == name_error(name@))
                ||| {
                    &&& acceptable_name(name@)
                    &&& (description matches Some(d) && !acceptable_description(d@) && e@
                        == description_error(d@))
                }
                ||| {
                    &&& acceptable_name(name@)
                    &&& (match description {
                        Some(d) => acceptable_description(d@),
                        None => true,
                    })
                    &&& !acceptable_mode(execution_mode@) && e@ == mode_error()
                }
                ||| {
                    &&& acceptable_name(name@)
                    &&& (match description {
                        Some(d) => acceptable_description(d@),
                        None => true,
                    })
                    &&& acceptable_mode(execution_mode@)
                    &&& !acceptable_labels(labels.deep_view()) && e@ == labels_error(
                        labels.deep_view(),
                    )
                }
            },
        },
{
    let name = match sanitize_name(name) {
        Ok(v) => v,
        Err(e) => {
            return Err(e);
        },
    };
    let description = match description {
        Some(d) => {
            match sanitize_description(d.as_str()) {
                Ok(v) => Some(v),
                Err(e) => {
                    return Err(e);
                },
            }
        },
        None => None,
    };
    let execution_mode = match validate_execution_mode(execution_mode) {
        Ok(v) => v,
        Err(e) => {
            return Err(e);
        },
    };
    let labels = match sanitize_labels(labels) {
        Ok(v) => v,
        Err(e) => {
            return Err(e);
        },
    };
    Ok(SuiteFields { name, description, execution_mode, labels })
}

/// Keeps a caller-chosen suite id, or draws a fresh one where the caller
/// sent the nil id.
pub fn choose_suite_id(id: u128) -> (r: u128)
    ensures
        id != 0 ==> r == id,
{
    if id == 0 {
        fresh_run_id()
    } else {
        id
    }
}

/// Applies a patch to a stored suite, as `merge_definition_patch` does
/// for definitions.
pub fn merge_suite_patch(current: SuiteRecord, patch: PatchSuite) -> (r: SuiteRecord)
    ensures
        r.id == current.id,
        r.created_at == current.created_at,
        r.name == (match patch.name {
            Some(n) => n,
            None => current.name,
        }),
        r.description == (match patch.description {
            Some(d) => d,
            None => current.description,
        }),
        r.execution_mode == (match patch.execution_mode {
            Some(m) => m,
            None => current.execution_mode,
        }),
        r.labels == (match patch.labels {
            Some(l) => l,
            None => current.labels,
        }),
        r.test_definition_ids == (match patch.test_definition_ids {
            Some(t) => t,
            None => current.test_definition_ids,
        }),
{
    SuiteRecord {
        id: current.id,
        name: match patch.name {
            Some(n) => n,
            None => current.name,
        },
        description: match patch.description {
            Some(d) => d,
            None => current.description,
        },
        execution_mode: match patch.execution_mode {
            Some(m) => m,
            None => current.execution_mode,
        },
        labels: match patch.labels {
            Some(l) => l,
            None => current.labels,
        },
        test_definition_ids: match patch.test_definition_ids {
            Some(t) => t,
            None => current.test_definition_ids,
        },
        created_at: current.created_at,
    }
}

/// The validated fields an executor create carries; the single command
/// is the first command left after cleaning.
#[derive(Debug)]
pub struct ExecutorFields {
    pub name: String,
    pub image: String,
    pub command: String,
    pub description: Option<String>,
}

/// Validates the fields of an executor, in the order name, image,
/// command, description; the first rejected field decides the error.
pub fn validate_executor(
    name: &str,
    image: &str,
    default_command: &String,
    description: &Option<String>,
) -> (r: Result<ExecutorFields, String>)
    ensures
        match r {
            Ok(f) => {
                &&& acceptable_name(name@) && f.name@ == trim_seq(name@)
                &&& acceptable_image(image@) && f.image@ == trim_seq(image@)
                &&& acceptable_commands(seq![default_command@]) && f.command@
                    == sanitize_commands_seq(seq![default_command@])->Ok_0[0]
                &&& (match description {
                    Some(d) => acceptable_description(d@) && (f.description matches Some(fd)
                        && fd@ == trim_seq(escape_seq(d@))),
                    None => f.description is None,
                })
            },
            Err(e) => {
                ||| (!acceptable_name(name@) && e@ == name_error(name@))
                ||| {
                    &&& acceptable_name(name@)
                    &&& !acceptable_image(image@) && e@ == image_error(image@)
                }
                ||| {
                    &&& acceptable_name(name@)
                    &&& acceptable_image(image@)
                    &&& !acceptable_commands(seq![default_command@]) && e@ == commands_error(
                        seq![default_command@],
                    )
                }
                ||| {
                    &&& acceptable_name(name@)
                    &&& acceptable_image(image@)
                    &&& acceptable_commands(seq![default_command@])
                    &&& (description matches Some(d) && !acceptable_description(d@) && e@
                        == description_error(d@))
                }
            },
        },
{
    let name = match sanitize_name(name) {
        Ok(v) => v,
        Err(e) => {
            return Err(e);
        },
    };
    let image = match validate_docker_image(image) {
        Ok(v) => v,
        Err(e) => {
            return Err(e);
        },
    };
    let mut single: Vec<String> = Vec::new();
    single.push(default_command.clone());
    proof {
        assert(single.deep_view() =~= seq![default_command@]);
    }
    let mut commands = match sanitize_commands(&single) {
        Ok(v) => v,
        Err(e) => {
            return Err(e);
        },
    };
    proof {
        assert(commands.deep_view().len() > 0);
        assert(commands.deep_view()[0] == commands@[0]@);
    }
    let command = commands.remove(0);
    let description = match description {
        Some(d) => {
            match sanitize_description(d.as_str()) {
                Ok(v) => Some(v),
                Err(e) => {
                    return Err(e);
                },
            }
        },
        None => None,
    };
    Ok(ExecutorFields { name, image, command, description })
}

/// A run record as it is persisted.
#[derive(Debug)]
pub struct TestRun {
    pub id: u128,
    pub name: String,
    pub image: String,
    pub commands: Vec<String>,
    pub status: String,
    pub created_at: i64,
    pub definition_id: Option<u128>,
    pub executor_id: Option<String>,
    pub suite_id: Option<u128>,
    pub variables: Option<String>,
    pub artifacts: Option<Vec<String>>,
    pub duration: Option<i32>,
    pub retries: Option<i32>,
    pub logs: Option<Vec<String>>,
    pub k8s_job_name: Option<String>,
    pub pod_scheduled: Option<i64>,
    pub container_created: Option<i64>,
    pub container_started: Option<i64>,
    pub completed: Option<i64>,
    pub failed: Option<i64>,
}

/// Builds a fresh run record from a request: a new id, the requested
/// name, image and commands, status `pending`, stamped now, and every
/// optional field empty.
pub fn new_pending_run(req: CreateRunRequest) -> (r: TestRun)
    ensures
        r.name == req.name,
        r.image == req.image,
        r.commands == req.commands,
        r.status@ == "pending"@,
        r.definition_id is None,
        r.executor_id is None,
        r.suite_id is None,
        r.variables is None,
        r.artifacts is None,
        r.duration is None,
        r.retries is None,
        r.logs is None,
        r.k8s_job_name is None,
        r.pod_scheduled is None,
        r.container_created is None,
        r.container_started is None,
        r.completed is None,
        r.failed is None,
{
    TestRun {
        id: fresh_run_id(),
        name: req.name,
        image: req.image,
        commands: req.commands,
        status: String::from_str("pending"),
        created_at: now_seconds(),
        definition_id: None,
        executor_id: None,
        suite_id: None,
        variables: None,
        artifacts: None,
        duration: None,
        retries: None,
        logs: None,
        k8s_job_name: None,
        pod_scheduled: None,
        container_created: None,
        container_started: None,
        completed: None,
        failed: None,
    }
}

} // verus!
