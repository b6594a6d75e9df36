//! The decision logic of the repository sync: which files are taken,
//! the source link written for each, the defaults that fill absent
//! fields, and whether a definition is inserted or updated in place.

use vstd::prelude::*;
use crate::records::DefinitionFields;
use crate::text::{contains_seq, trim_seq};
use crate::validation::{
    acceptable_commands, acceptable_image, acceptable_name, escape_seq, acceptable_description,
    sanitize_commands, sanitize_commands_seq, sanitize_description, sanitize_name,
    validate_docker_image,
};

verus! {

/// A file is synced when its name carries the `json` extension: a last
/// dot that is not the first character, with exactly `json` after it.
pub open spec fn spec_is_json_file(s: Seq<char>) -> bool {
    exists|p: int|
        0 < p < s.len() && #[trigger] s[p] == '.' && (forall|j: int| p < j < s.len() ==> s[j] != '.')
            && s.skip(p + 1) == "json"@
}

/// Whether a file name carries the `json` extension.
pub fn is_json_file(name: &str) -> (r: bool)
    ensures
        r == spec_is_json_file(name@),
{
    let n = name.unicode_len();
    let mut i: usize = n;
    while i > 0
        invariant
            n == name@.len(),
            i <= n,
            forall|j: int| i <= j < n ==> name@[j] != '.',
        decreases i,
    {
        if name.get_char(i - 1) == '.' {
            let p = i - 1;
            if p == 0 {
                proof {
                    assert forall|q: int|
                        0 < q < name@.len() implies !(#[trigger] name@[q] == '.' && (forall|j: int|
                        q < j < name@.len() ==> name@[j] != '.') && name@.skip(q + 1)
                        == "json"@) by {}
                }
                return false;
            }
            let suffix_len = n - p - 1;
            let matches_json = suffix_len == 4 && name.get_char(p + 1) == 'j' && name.get_char(
                p + 2,
            ) == 's' && name.get_char(p + 3) == 'o' && name.get_char(p + 4) == 'n';
            proof {
                reveal_strlit("json");
                if matches_json {
                    assert(name@.skip(p + 1) =~= "json"@);
                    assert(spec_is_json_file(name@));
                } else {
                    assert forall|q: int|
                        0 < q < name@.len() && #[trigger] name@[q] == '.' && (forall|j: int|
                            q < j < name@.len() ==> name@[j] != '.') implies name@.skip(q + 1)
                        != "json"@ by {
                        assert(q == p);
                        if name@.skip(q + 1).len() == 4 {
                            assert(name@.skip(q + 1)[0] == name@[p + 1]);
                            assert(name@.skip(q + 1)[1] == name@[p + 2]);
                            assert(name@.skip(q + 1)[2] == name@[p + 3]);
                            assert(name@.skip(q + 1)[3] == name@[p + 4]);
                        }
                    }
                }
            }
            return matches_json;
        }
        i = i - 1;
    }
    proof {
        assert forall|q: int|
            0 < q < name@.len() implies !(#[trigger] name@[q] == '.' && (forall|j: int|
                q < j < name@.len() ==> name@[j] != '.') && name@.skip(q + 1) == "json"@) by {}
    }
    false
}

/// The source link recorded for a synced file: the repository address,
/// the branch, and the file's place under the tests directory.
pub fn github_file_url(repo_url: &str, branch: &str, file_name: &str) -> (r: String)
    ensures
        r@ == repo_url@ + "/blob/"@ + branch@ + "/tests/"@ + file_name@,
{
    let mut s = String::from_str(repo_url);
    s.append("/blob/");
    s.append(branch);
    s.append("/tests/");
    s.append(file_name);
    s
}

/// Whether the synced definition updates a record already tracked under
/// this source link, or inserts a new one.
#[derive(Clone, Copy, PartialEq, Eq, Structural, Debug)]
pub enum UpsertAction {
    Update { id: u128 },
    Insert,
}

/// The name a synced file's definition gets where the file names none.
pub open spec fn spec_default_name() -> Seq<char> {
    "Unnamed"@
}

/// The image it gets where the file names none.
pub open spec fn spec_default_image() -> Seq<char> {
    "ubuntu:latest"@
}

/// The command list it gets where the file names none.
pub open spec fn spec_default_commands() -> Seq<Seq<char>> {
    seq!["echo Hello"@]
}

/// The effective value of an optional field under a default.
pub open spec fn spec_or_default(v: Option<Seq<char>>, d: Seq<char>) -> Seq<char> {
    match v {
        Some(s) => s,
        None => d,
    }
}

/// Plans the upsert of one synced definition: absent fields take the
/// defaults, every field is validated, and an already-tracked source is
/// updated in place while a new one is inserted. The error names the
/// field the sync rejected.
pub fn upsert_definition_plan(
    raw_name: &Option<String>,
    raw_image: &Option<String>,
    raw_commands: &Option<Vec<String>>,
    raw_description: &Option<String>,
    existing: Option<u128>,
) -> (r: Result<(DefinitionFields, UpsertAction), String>)
    ensures
        ({
            let name = spec_or_default(
                match raw_name {
                    Some(n) => Some(n@),
                    None => None,
                },
                spec_default_name(),
            );
            let image = spec_or_default(
                match raw_image {
                    Some(i) => Some(i@),
                    None => None,
                },
                spec_default_image(),
            );
            let commands = match raw_commands {
                Some(c) => c.deep_view(),
                None => spec_default_commands(),
            };
            match r {
                Ok((f, action)) => {
                    &&& acceptable_name(name) && f.name@ == trim_seq(name)
                    &&& acceptable_image(image) && f.image@ == trim_seq(image)
                    &&& acceptable_commands(commands) && sanitize_commands_seq(commands) == Ok::<
                        Seq<Seq<char>>,
                        Seq<char>,
                    >(f.commands.deep_view())
                    &&& (match raw_description {
                        Some(d) => acceptable_description(d@) && (f.description matches Some(fd)
                            && fd@ == trim_seq(escape_seq(d@))),
                        None => f.description is None,
                    })
                    &&& action == (match existing {
                        Some(id) => UpsertAction::Update { id },
                        None => UpsertAction::Insert,
                    })
                },
                Err(e) => {
                    ||| (!acceptable_name(name) && e@ == "Invalid name in GitHub sync"@)
                    ||| (acceptable_name(name) && !acceptable_image(image) && e@
                        == "Invalid image in GitHub sync"@)
                    ||| (acceptable_name(name) && acceptable_image(image) && !acceptable_commands(
                        commands,
                    ) && e@ == "Invalid commands in GitHub sync"@)
                    ||| {
                        &&& acceptable_name(name)
                        &&& acceptable_image(image)
                        &&& acceptable_commands(commands)
                        &&& (raw_description matches Some(d) && !acceptable_description(d@) && e@
                            == "Invalid description in GitHub sync"@)
                    }
                },
            }
        }),
{
    let name_input: &str = match raw_name {
        Some(n) => n.as_str(),
        None => "Unnamed",
    };
    let name = match sanitize_name(name_input) {
        Ok(v) => v,
        Err(_) => {
            return Err(String::from_str("Invalid name in GitHub sync"));
        },
    };
    let image_input: &str = match raw_image {
        Some(i) => i.as_str(),
        None => "ubuntu:latest",
    };
    let image = match validate_docker_image(image_input) {
        Ok(v) => v,
        Err(_) => {
            return Err(String::from_str("Invalid image in GitHub sync"));
        },
    };
    let commands = match raw_commands {
        Some(c) => {
            match sanitize_commands(c) {
                Ok(v) => v,
                Err(_) => {
                    return Err(String::from_str("Invalid commands in GitHub sync"));
                },
            }
        },
        None => {
            let mut d: Vec<String> = Vec::new();
            d.push(String::from_str("echo Hello"));
            proof {
                assert(d.deep_view() =~= spec_default_commands());
            }
            match sanitize_commands(&d) {
                Ok(v) => v,
                Err(_) => {
                    return Err(String::from_str("Invalid commands in GitHub sync"));
                },
            }
        },
    };
    let description = match raw_description {
        Some(d) => {
            match sanitize_description(d.as_str()) {
                Ok(v) => Some(v),
                Err(_) => {
                    return Err(String::from_str("Invalid description in GitHub sync"));
                },
            }
        },
        None => None,
    };
    let action = match existing {
        Some(id) => UpsertAction::Update { id },
        None => UpsertAction::Insert,
    };
    Ok((DefinitionFields { name, description, image, commands }, action))
}

} // verus!
