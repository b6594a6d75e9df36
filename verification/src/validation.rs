//! Input validation and sanitization for names, descriptions, container
//! image references, command lists, labels and execution modes. Every
//! function states exactly on which inputs it succeeds, what it returns,
//! and which error text it gives otherwise.

use vstd::prelude::*;
use vstd::string::StringSliceAdditionalSpecFns;
use crate::text::{
    contains_seq, contains_sub, is_alnum, is_alnum_char, is_space, lower_seq, replace_char,
    replace_seq, spec_dec, trim_seq, trim_str, usize_to_dec,
};

verus! {

/// Byte length of a string under UTF-8, as `str::len` reports it.
pub open spec fn byte_len(s: Seq<char>) -> nat {
    (vstd::utf8::encode_utf8(s).len() as usize) as nat
}

/// Characters a name may hold: alphanumerics, white space, periods,
/// underscores and hyphens.
pub open spec fn is_name_char(c: char) -> bool {
    is_alnum(c) || c == '.' || c == '_' || c == '-' || is_space(c)
}

pub open spec fn all_name_chars(s: Seq<char>) -> bool {
    forall|i: int| 0 <= i < s.len() ==> is_name_char(s[i])
}

fn check_name_chars(s: &str) -> (r: bool)
    ensures
        r == all_name_chars(s@),
{
    let n = s.unicode_len();
    let mut i: usize = 0;
    while i < n
        invariant
            n == s@.len(),
            i <= n,
            forall|j: int| 0 <= j < i ==> is_name_char(s@[j]),
        decreases n - i,
    {
        let c = s.get_char(i);
        if !(is_alnum_char(c) || c == '.' || c == '_' || c == '-' || crate::text::is_space_char(c))
        {
            return false;
        }
        i = i + 1;
    }
    true
}

/// Characters a label or an image segment may hold: alphanumerics,
/// periods, underscores and hyphens.
pub open spec fn is_label_char(c: char) -> bool {
    is_alnum(c) || c == '.' || c == '_' || c == '-'
}

pub open spec fn all_label_chars(s: Seq<char>) -> bool {
    forall|i: int| 0 <= i < s.len() ==> is_label_char(s[i])
}

fn check_label_chars(s: &str) -> (r: bool)
    ensures
        r == all_label_chars(s@),
{
    let n = s.unicode_len();
    let mut i: usize = 0;
    while i < n
        invariant
            n == s@.len(),
            i <= n,
            forall|j: int| 0 <= j < i ==> is_label_char(s@[j]),
        decreases n - i,
    {
        let c = s.get_char(i);
        if !(is_alnum_char(c) || c == '.' || c == '_' || c == '-') {
            return false;
        }
        i = i + 1;
    }
    true
}

/// Builds `prefix`, then the decimal form of `n`, then `suffix`.
fn counted_msg(prefix: &str, n: usize, suffix: &str) -> (r: String)
    ensures
        r@ == prefix@ + spec_dec(n as nat) + suffix@,
{
    let mut e = String::from_str(prefix);
    let d = usize_to_dec(n);
    e.append(d.as_str());
    e.append(suffix);
    e
}

/// A name is accepted when it is nonempty, at most 255 bytes, made only
/// of name characters, and still nonempty after trimming.
pub open spec fn acceptable_name(s: Seq<char>) -> bool {
    s.len() > 0 && byte_len(s) <= 255 && all_name_chars(s) && trim_seq(s).len() > 0
}

/// The error text a rejected name gets.
pub open spec fn name_error(s: Seq<char>) -> Seq<char> {
    if s.len() == 0 {
        "Name cannot be empty"@
    } else if byte_len(s) > 255 {
        "Name too long: "@ + spec_dec(byte_len(s)) + " characters (max 255)"@
    } else if !all_name_chars(s) {
        "Name contains invalid characters. Only alphanumeric characters, spaces, hyphens, underscores, and periods are allowed"@
    } else {
        "Name cannot be empty after trimming"@
    }
}

/// Validates and trims a display name.
pub fn sanitize_name(name: &str) -> (r: Result<String, String>)
    ensures
        match r {
            Ok(v) => acceptable_name(name@) && v@ == trim_seq(name@),
            Err(e) => !acceptable_name(name@) && e@ == name_error(name@),
        },
{
    proof {
        assert(name.spec_bytes() == vstd::utf8::encode_utf8(name@));
    }
    if name.is_empty() {
        return Err(String::from_str("Name cannot be empty"));
    }
    if name.len() > 255 {
        return Err(counted_msg("Name too long: ", name.len(), " characters (max 255)"));
    }
    if !check_name_chars(name) {
        return Err(
            String::from_str(
                "Name contains invalid characters. Only alphanumeric characters, spaces, hyphens, underscores, and periods are allowed",
            ),
        );
    }
    let sanitized = trim_str(name);
    if sanitized.as_str().is_empty() {
        return Err(String::from_str("Name cannot be empty after trimming"));
    }
    Ok(sanitized)
}

/// The escaping that a description undergoes: each marked character is
/// replaced in turn, in this order, so replacements introduced by an
/// earlier step are themselves subject to the later ones.
pub open spec fn escape_seq(s: Seq<char>) -> Seq<char> {
    replace_seq(
        replace_seq(
            replace_seq(
                replace_seq(replace_seq(replace_seq(s, '<', "&lt;"@), '>', "&gt;"@), '&', "&amp;"@),
                '"',
                "&quot;"@,
            ),
            '\'',
            "&#x27;"@,
        ),
        '/',
        "&#x2F;"@,
    )
}

/// A description is accepted whenever it is at most 1000 bytes.
pub open spec fn acceptable_description(s: Seq<char>) -> bool {
    byte_len(s) <= 1000
}

/// The error text a rejected description gets.
pub open spec fn description_error(s: Seq<char>) -> Seq<char> {
    "Description too long: "@ + spec_dec(byte_len(s)) + " characters (max 1000)"@
}

/// Escapes markup-sensitive characters in a description and trims the
/// result.
pub fn sanitize_description(description: &str) -> (r: Result<String, String>)
    ensures
        match r {
            Ok(v) => acceptable_description(description@) && v@ == trim_seq(
                escape_seq(description@),
            ),
            Err(e) => !acceptable_description(description@) && e@ == description_error(
                description@,
            ),
        },
{
    proof {
        assert(description.spec_bytes() == vstd::utf8::encode_utf8(description@));
    }
    if description.len() > 1000 {
        return Err(
            counted_msg("Description too long: ", description.len(), " characters (max 1000)"),
        );
    }
    let s1 = replace_char(description, '<', "&lt;");
    let s2 = replace_char(s1.as_str(), '>', "&gt;");
    let s3 = replace_char(s2.as_str(), '&', "&amp;");
    let s4 = replace_char(s3.as_str(), '"', "&quot;");
    let s5 = replace_char(s4.as_str(), '\'', "&#x27;");
    let s6 = replace_char(s5.as_str(), '/', "&#x2F;");
    Ok(trim_str(s6.as_str()))
}

/// A repository part: one or more nonempty runs of image characters
/// joined by single slashes.
pub open spec fn valid_repo(s: Seq<char>) -> bool {
    &&& s.len() > 0
    &&& forall|i: int| 0 <= i < s.len() ==> (is_label_char(s[i]) || s[i] == '/')
    &&& s[0] != '/'
    &&& s[s.len() - 1] != '/'
    &&& forall|i: int| 0 < i < s.len() ==> !(s[i - 1] == '/' && (#[trigger] s[i]) == '/')
}

/// A tag part: nonempty, image characters only.
pub open spec fn valid_tag(t: Seq<char>) -> bool {
    t.len() > 0 && all_label_chars(t)
}

/// The accepted shape of an image reference: a repository part,
/// optionally followed by a colon and a tag part.
pub open spec fn valid_image_shape(s: Seq<char>) -> bool {
    valid_repo(s) || (exists|k: int|
        0 <= k < s.len() && #[trigger] s[k] == ':' && valid_repo(s.take(k)) && valid_tag(
            s.skip(k + 1),
        ))
}

/// Substrings whose presence marks an image reference as dangerous.
pub open spec fn has_dangerous_image(s: Seq<char>) -> bool {
    ||| contains_seq(s, "../"@)
    ||| contains_seq(s, "..\\"@)
    ||| contains_seq(s, "$("@)
    ||| contains_seq(s, "`"@)
    ||| contains_seq(s, ";"@)
    ||| contains_seq(s, "&"@)
    ||| contains_seq(s, "|"@)
    ||| contains_seq(s, "&&"@)
    ||| contains_seq(s, "||"@)
}

fn check_repo_range(s: &str, from: usize, to: usize) -> (r: bool)
    requires
        from <= to <= s@.len(),
    ensures
        r == valid_repo(s@.subrange(from as int, to as int)),
{
    let ghost sub = s@.subrange(from as int, to as int);
    if from == to {
        return false;
    }
    if s.get_char(from) == '/' {
        proof {
            assert(sub[0] == s@[from as int]);
        }
        return false;
    }
    if s.get_char(to - 1) == '/' {
        proof {
            assert(sub[sub.len() - 1] == s@[to - 1]);
        }
        return false;
    }
    let mut i: usize = from;
    while i < to
        invariant
            from <= i <= to <= s@.len(),
            from < to,
            sub == s@.subrange(from as int, to as int),
            forall|j: int| from <= j < i ==> (is_label_char(s@[j]) || s@[j] == '/'),
            forall|j: int| from < j < i ==> !(s@[j - 1] == '/' && (#[trigger] s@[j]) == '/'),
        decreases to - i,
    {
        let c = s.get_char(i);
        if !(is_alnum_char(c) || c == '.' || c == '_' || c == '-' || c == '/') {
            proof {
                assert(sub[i - from] == s@[i as int]);
            }
            return false;
        }
        if c == '/' && i > from && s.get_char(i - 1) == '/' {
            proof {
                assert(sub[i - from] == s@[i as int]);
                assert(sub[i - from - 1] == s@[i - 1]);
            }
            return false;
        }
        i = i + 1;
    }
    proof {
        assert forall|j: int| 0 <= j < sub.len() implies (is_label_char(sub[j]) || sub[j]
            == '/') by {
            assert(sub[j] == s@[from + j]);
        }
        assert forall|j: int|
            0 < j < sub.len() implies !(sub[j - 1] == '/' && (#[trigger] sub[j]) == '/') by {
            assert(sub[j] == s@[from + j]);
            assert(sub[j - 1] == s@[from + j - 1]);
        }
        assert(sub[0] == s@[from as int]);
        assert(sub[sub.len() - 1] == s@[to - 1]);
    }
    true
}

fn check_label_range(s: &str, from: usize, to: usize) -> (r: bool)
    requires
        from <= to <= s@.len(),
    ensures
        r == all_label_chars(s@.subrange(from as int, to as int)),
{
    let ghost sub = s@.subrange(from as int, to as int);
    let mut i: usize = from;
    while i < to
        invariant
            from <= i <= to <= s@.len(),
            sub == s@.subrange(from as int, to as int),
            forall|j: int| from <= j < i ==> is_label_char(s@[j]),
        decreases to - i,
    {
        let c = s.get_char(i);
        if !(is_alnum_char(c) || c == '.' || c == '_' || c == '-') {
            proof {
                assert(sub[i - from] == s@[i as int]);
            }
            return false;
        }
        i = i + 1;
    }
    proof {
        assert forall|j: int| 0 <= j < sub.len() implies is_label_char(sub[j]) by {
            assert(sub[j] == s@[from + j]);
        }
    }
    true
}

/// An image reference is accepted when it is nonempty, at most 255
/// bytes, of the accepted shape, and free of dangerous substrings.
pub open spec fn acceptable_image(s: Seq<char>) -> bool {
    s.len() > 0 && byte_len(s) <= 255 && valid_image_shape(s) && !has_dangerous_image(s)
}

/// The error text a rejected image reference gets.
pub open spec fn image_error(s: Seq<char>) -> Seq<char> {
    if s.len() == 0 {
        "Docker image cannot be empty"@
    } else if byte_len(s) > 255 {
        "Docker image name too long: "@ + spec_dec(byte_len(s)) + " characters (max 255)"@
    } else if !valid_image_shape(s) {
        "Invalid Docker image format. Must be in format: [registry/]namespace/repository[:tag]"@
    } else {
        "Docker image contains potentially dangerous characters"@
    }
}

/// Validates a container image reference; returns it trimmed.
pub fn validate_docker_image(image: &str) -> (r: Result<String, String>)
    ensures
        match r {
            Ok(v) => acceptable_image(image@) && v@ == trim_seq(image@),
            Err(e) => !acceptable_image(image@) && e@ == image_error(image@),
        },
{
    proof {
        assert(image.spec_bytes() == vstd::utf8::encode_utf8(image@));
    }
    if image.is_empty() {
        return Err(String::from_str("Docker image cannot be empty"));
    }
    if image.len() > 255 {
        return Err(
            counted_msg("Docker image name too long: ", image.len(), " characters (max 255)"),
        );
    }
    let n = image.unicode_len();
    let mut k: usize = 0;
    let mut found = false;
    while k < n && !found
        invariant
            n == image@.len(),
            k <= n,
            found ==> k < n && image@[k as int] == ':',
            forall|j: int| 0 <= j < k ==> image@[j] != ':',
        decreases n - k + (if found {
            0int
        } else {
            1int
        }),
    {
        if image.get_char(k) == ':' {
            found = true;
        } else {
            k = k + 1;
        }
    }
    let shape_ok: bool;
    if !found {
        shape_ok = check_repo_range(image, 0, n);
        proof {
            assert(image@.subrange(0, n as int) =~= image@);
            if !shape_ok {
                assert forall|kk: int| 0 <= kk < image@.len() implies #[trigger] image@[kk]
                    != ':' by {}
            }
        }
    } else {
        let repo_ok = check_repo_range(image, 0, k);
        let tag_ok = k + 1 < n && check_label_range(image, k + 1, n);
        shape_ok = repo_ok && tag_ok;
        proof {
            assert(image@.take(k as int) =~= image@.subrange(0, k as int));
            assert(image@.skip(k + 1) =~= image@.subrange(k + 1, n as int));
            if shape_ok {
                assert(valid_tag(image@.skip(k + 1)));
                assert(valid_image_shape(image@));
            } else {
                assert(!(valid_repo(image@.take(k as int)) && valid_tag(image@.skip(k + 1))));
                // a colon anywhere else would stand inside the repository
                // part of that split, which a repository part cannot hold
                assert forall|kk: int|
                    0 <= kk < image@.len() && #[trigger] image@[kk] == ':' implies !(valid_repo(
                    image@.take(kk),
                ) && valid_tag(image@.skip(kk + 1))) by {
                    if kk > k {
                        assert(image@.take(kk)[k as int] == ':');
                        assert(!is_label_char(':') && ':' != '/');
                    }
                }
                assert(!valid_repo(image@)) by {
                    assert(image@[k as int] == ':');
                    assert(!is_label_char(':') && ':' != '/');
                }
            }
        }
    }
    if !shape_ok {
        return Err(
            String::from_str(
                "Invalid Docker image format. Must be in format: [registry/]namespace/repository[:tag]",
            ),
        );
    }
    if contains_sub(image, "../") || contains_sub(image, "..\\") || contains_sub(image, "$(")
        || contains_sub(image, "`") || contains_sub(image, ";") || contains_sub(image, "&")
        || contains_sub(image, "|") || contains_sub(image, "&&") || contains_sub(image, "||") {
        return Err(String::from_str("Docker image contains potentially dangerous characters"));
    }
    Ok(trim_str(image))
}

/// The first dangerous shell pattern found in a command, in the order
/// the patterns are looked for.
pub open spec fn first_dangerous_cmd(c: Seq<char>) -> Option<Seq<char>> {
    if contains_seq(c, "$("@) {
        Some("$("@)
    } else if contains_seq(c, "`"@) {
        Some("`"@)
    } else if contains_seq(c, ";"@) {
        Some(";"@)
    } else if contains_seq(c, "&"@) {
        Some("&"@)
    } else if contains_seq(c, "|"@) {
        Some("|"@)
    } else if contains_seq(c, "&&"@) {
        Some("&&"@)
    } else if contains_seq(c, "||"@) {
        Some("||"@)
    } else if contains_seq(c, ">"@) {
        Some(">"@)
    } else if contains_seq(c, "<"@) {
        Some("<"@)
    } else if contains_seq(c, ">>"@) {
        Some(">>"@)
    } else if contains_seq(c, "<<"@) {
        Some("<<"@)
    } else if contains_seq(c, "rm -rf"@) {
        Some("rm -rf"@)
    } else if contains_seq(c, "dd if="@) {
        Some("dd if="@)
    } else if contains_seq(c, ":(){ :|:& };:"@) {
        Some(":(){ :|:& };:"@)
    } else if contains_seq(c, "chmod -R"@) {
        Some("chmod -R"@)
    } else if contains_seq(c, "chown -R"@) {
        Some("chown -R"@)
    } else {
        None
    }
}

fn find_dangerous_cmd(t: &str) -> (r: Option<String>)
    ensures
        match r {
            Some(p) => first_dangerous_cmd(t@) == Some(p@),
            None => first_dangerous_cmd(t@) is None,
        },
{
    if contains_sub(t, "$(") {
        Some(String::from_str("$("))
    } else if contains_sub(t, "`") {
        Some(String::from_str("`"))
    } else if contains_sub(t, ";") {
        Some(String::from_str(";"))
    } else if contains_sub(t, "&") {
        Some(String::from_str("&"))
    } else if contains_sub(t, "|") {
        Some(String::from_str("|"))
    } else if contains_sub(t, "&&") {
        Some(String::from_str("&&"))
    } else if contains_sub(t, "||") {
        Some(String::from_str("||"))
    } else if contains_sub(t, ">") {
        Some(String::from_str(">"))
    } else if contains_sub(t, "<") {
        Some(String::from_str("<"))
    } else if contains_sub(t, ">>") {
        Some(String::from_str(">>"))
    } else if contains_sub(t, "<<") {
        Some(String::from_str("<<"))
    } else if contains_sub(t, "rm -rf") {
        Some(String::from_str("rm -rf"))
    } else if contains_sub(t, "dd if=") {
        Some(String::from_str("dd if="))
    } else if contains_sub(t, ":(){ :|:& };:") {
        Some(String::from_str(":(){ :|:& };:"))
    } else if contains_sub(t, "chmod -R") {
        Some(String::from_str("chmod -R"))
    } else if contains_sub(t, "chown -R") {
        Some(String::from_str("chown -R"))
    } else {
        None
    }
}

pub open spec fn cmd_too_long_msg(c: Seq<char>) -> Seq<char> {
    "Command too long: "@ + spec_dec(byte_len(c)) + " characters (max 1000)"@
}

pub open spec fn cmd_danger_msg(p: Seq<char>) -> Seq<char> {
    "Command contains potentially dangerous pattern: "@ + p
}

/// How a command list is cleaned, command by command: an overlong
/// command or one holding a dangerous pattern stops with that error;
/// a command that trims to nothing is skipped; the rest are kept,
/// trimmed, in order.
pub open spec fn sanitize_commands_seq(cmds: Seq<Seq<char>>) -> Result<Seq<Seq<char>>, Seq<char>>
    decreases cmds.len(),
{
    if cmds.len() == 0 {
        Ok(Seq::empty())
    } else {
        let c = cmds[0];
        if byte_len(c) > 1000 {
            Err(cmd_too_long_msg(c))
        } else {
            let t = trim_seq(c);
            if t.len() == 0 {
                sanitize_commands_seq(cmds.drop_first())
            } else if first_dangerous_cmd(t) is Some {
                Err(cmd_danger_msg(first_dangerous_cmd(t)->Some_0))
            } else {
                match sanitize_commands_seq(cmds.drop_first()) {
                    Ok(rest) => Ok(seq![t] + rest),
                    Err(e) => Err(e),
                }
            }
        }
    }
}

/// A command list is accepted when it holds between one and a hundred
/// commands, each within bounds and free of dangerous patterns, and at
/// least one survives trimming.
pub open spec fn acceptable_commands(cs: Seq<Seq<char>>) -> bool {
    &&& 0 < cs.len() <= 100
    &&& sanitize_commands_seq(cs) is Ok
    &&& sanitize_commands_seq(cs)->Ok_0.len() > 0
}

/// The error text a rejected command list gets.
pub open spec fn commands_error(cs: Seq<Seq<char>>) -> Seq<char> {
    if cs.len() == 0 {
        "Commands cannot be empty"@
    } else if cs.len() > 100 {
        "Too many commands (max 100)"@
    } else {
        match sanitize_commands_seq(cs) {
            Err(e) => e,
            Ok(_) => "No valid commands found after sanitization"@,
        }
    }
}

/// Cleans a command list: at least one and at most 100 commands, each at
/// most 1000 bytes and free of dangerous shell patterns; returns the
/// trimmed commands, skipping those that trim to nothing, and fails if
/// none is left.
pub fn sanitize_commands(commands: &Vec<String>) -> (r: Result<Vec<String>, String>)
    ensures
        match r {
            Ok(v) => acceptable_commands(commands.deep_view()) && sanitize_commands_seq(
                commands.deep_view(),
            ) == Ok::<Seq<Seq<char>>, Seq<char>>(v.deep_view()),
            Err(e) => !acceptable_commands(commands.deep_view()) && e@ == commands_error(
                commands.deep_view(),
            ),
        },
{
    let ghost cv = commands.deep_view();
    proof {
        assert(cv.len() == commands@.len());
    }
    if commands.len() == 0 {
        return Err(String::from_str("Commands cannot be empty"));
    }
    if commands.len() > 100 {
        return Err(String::from_str("Too many commands (max 100)"));
    }
    let mut out: Vec<String> = Vec::new();
    let mut i: usize = 0;
    proof {
        assert(cv.skip(0) =~= cv);
        assert(out.deep_view() =~= Seq::<Seq<char>>::empty());
        let r0 = sanitize_commands_seq(cv);
        if r0 is Ok {
            assert(Seq::<Seq<char>>::empty() + r0->Ok_0 =~= r0->Ok_0);
        }
    }
    while i < commands.len()
        invariant
            cv == commands.deep_view(),
            cv.len() == commands@.len(),
            0 < commands@.len() <= 100,
            i <= commands@.len(),
            sanitize_commands_seq(cv) == (match sanitize_commands_seq(cv.skip(i as int)) {
                Ok(rest) => Ok::<Seq<Seq<char>>, Seq<char>>(out.deep_view() + rest),
                Err(e) => Err::<Seq<Seq<char>>, Seq<char>>(e),
            }),
        decreases commands@.len() - i,
    {
        let cmd = &commands[i];
        proof {
            assert(cv.skip(i as int)[0] == cv[i as int]);
            assert(cv.skip(i as int).drop_first() =~= cv.skip(i + 1));
            assert(cv[i as int] == commands@[i as int]@);
        }
        let cmd_str = cmd.as_str();
        proof {
            assert(cmd_str.spec_bytes() == vstd::utf8::encode_utf8(cmd_str@));
        }
        if cmd_str.len() > 1000 {
            proof {
                assert(sanitize_commands_seq(cv.skip(i as int)) == Err::<Seq<Seq<char>>, Seq<char>>(
                    cmd_too_long_msg(cv[i as int]),
                ));
            }
            return Err(
                counted_msg("Command too long: ", cmd_str.len(), " characters (max 1000)"),
            );
        }
        let trimmed = trim_str(cmd_str);
        if !trimmed.as_str().is_empty() {
            if let Some(p) = find_dangerous_cmd(trimmed.as_str()) {
                proof {
                    assert(trimmed@ == trim_seq(cv[i as int]));
                    assert(sanitize_commands_seq(cv.skip(i as int)) == Err::<
                        Seq<Seq<char>>,
                        Seq<char>,
                    >(cmd_danger_msg(p@)));
                }
                let mut e = String::from_str("Command contains potentially dangerous pattern: ");
                e.append(p.as_str());
                return Err(e);
            }
            let ghost old_out = out.deep_view();
            let ghost t = trimmed@;
            out.push(trimmed);
            proof {
                assert(out.deep_view() =~= old_out + seq![t]);
                let rem = sanitize_commands_seq(cv.skip(i + 1));
                if rem is Ok {
                    assert(old_out + (seq![t] + rem->Ok_0) =~= (old_out + seq![t]) + rem->Ok_0);
                }
            }
        }
        i = i + 1;
    }
    proof {
        assert(cv.skip(cv.len() as int) =~= Seq::<Seq<char>>::empty());
    }
    if out.len() == 0 {
        proof {
            assert(out.deep_view() =~= Seq::<Seq<char>>::empty());
        }
        return Err(String::from_str("No valid commands found after sanitization"));
    }
    proof {
        assert(out.deep_view() + Seq::<Seq<char>>::empty() =~= out.deep_view());
    }
    Ok(out)
}

pub open spec fn label_long_msg(l: Seq<char>) -> Seq<char> {
    "Label too long: "@ + spec_dec(byte_len(l)) + " characters (max 100)"@
}

/// How a label list is cleaned, label by label, `seen` holding the
/// lowercased labels already kept: an overlong or ill-formed label stops
/// with that error; a repeated one is skipped; the rest are kept,
/// lowercased, in order of first occurrence.
pub open spec fn sanitize_labels_seq(ls: Seq<Seq<char>>, seen: Seq<Seq<char>>) -> Result<
    Seq<Seq<char>>,
    Seq<char>,
>
    decreases ls.len(),
{
    if ls.len() == 0 {
        Ok(Seq::empty())
    } else {
        let l = ls[0];
        if byte_len(l) > 100 {
            Err(label_long_msg(l))
        } else if !(l.len() > 0 && all_label_chars(l)) {
            Err(
                "Label contains invalid characters. Only alphanumeric characters, hyphens, underscores, and periods are allowed"@,
            )
        } else {
            let t = lower_seq(trim_seq(l));
            if t.len() == 0 || seen.contains(t) {
                sanitize_labels_seq(ls.drop_first(), seen)
            } else {
                match sanitize_labels_seq(ls.drop_first(), seen.push(t)) {
                    Ok(rest) => Ok(seq![t] + rest),
                    Err(e) => Err(e),
                }
            }
        }
    }
}

fn contains_string(v: &Vec<String>, s: &String) -> (r: bool)
    ensures
        r == v.deep_view().contains(s@),
{
    let mut i: usize = 0;
    while i < v.len()
        invariant
            i <= v@.len(),
            forall|j: int| 0 <= j < i ==> v.deep_view()[j] != s@,
        decreases v@.len() - i,
    {
        if v[i] == *s {
            proof {
                assert(v.deep_view()[i as int] == s@);
            }
            return true;
        }
        i = i + 1;
    }
    false
}

/// A label list is accepted when it holds at most 50 labels, each at
/// most 100 bytes and made only of label characters.
pub open spec fn acceptable_labels(ls: Seq<Seq<char>>) -> bool {
    ls.len() <= 50 && sanitize_labels_seq(ls, Seq::empty()) is Ok
}

/// The error text a rejected label list gets.
pub open spec fn labels_error(ls: Seq<Seq<char>>) -> Seq<char> {
    if ls.len() > 50 {
        "Too many labels (max 50)"@
    } else {
        match sanitize_labels_seq(ls, Seq::empty()) {
            Err(e) => e,
            Ok(_) => Seq::empty(),
        }
    }
}

/// Cleans a label list: at most 50 labels, each at most 100 bytes and
/// made only of label characters; returns them lowercased, in order of
/// first occurrence, without repetition.
pub fn sanitize_labels(labels: &Vec<String>) -> (r: Result<Vec<String>, String>)
    ensures
        match r {
            Ok(v) => acceptable_labels(labels.deep_view()) && sanitize_labels_seq(
                labels.deep_view(),
                Seq::empty(),
            ) == Ok::<Seq<Seq<char>>, Seq<char>>(v.deep_view()),
            Err(e) => !acceptable_labels(labels.deep_view()) && e@ == labels_error(
                labels.deep_view(),
            ),
        },
{
    let ghost lv = labels.deep_view();
    proof {
        assert(lv.len() == labels@.len());
    }
    if labels.len() > 50 {
        return Err(String::from_str("Too many labels (max 50)"));
    }
    let mut out: Vec<String> = Vec::new();
    let mut seen: Vec<String> = Vec::new();
    let mut i: usize = 0;
    proof {
        assert(lv.skip(0) =~= lv);
        assert(out.deep_view() =~= Seq::<Seq<char>>::empty());
        assert(seen.deep_view() =~= Seq::<Seq<char>>::empty());
        let r0 = sanitize_labels_seq(lv, Seq::empty());
        if r0 is Ok {
            assert(Seq::<Seq<char>>::empty() + r0->Ok_0 =~= r0->Ok_0);
        }
    }
    while i < labels.len()
        invariant
            lv == labels.deep_view(),
            lv.len() == labels@.len(),
            labels@.len() <= 50,
            i <= labels@.len(),
            sanitize_labels_seq(lv, Seq::empty()) == (match sanitize_labels_seq(
                lv.skip(i as int),
                seen.deep_view(),
            ) {
                Ok(rest) => Ok::<Seq<Seq<char>>, Seq<char>>(out.deep_view() + rest),
                Err(e) => Err::<Seq<Seq<char>>, Seq<char>>(e),
            }),
        decreases labels@.len() - i,
    {
        let label = &labels[i];
        proof {
            assert(lv.skip(i as int)[0] == lv[i as int]);
            assert(lv.skip(i as int).drop_first() =~= lv.skip(i + 1));
            assert(lv[i as int] == labels@[i as int]@);
        }
        let label_str = label.as_str();
        proof {
            assert(label_str.spec_bytes() == vstd::utf8::encode_utf8(label_str@));
        }
        if label_str.len() > 100 {
            proof {
                assert(sanitize_labels_seq(lv.skip(i as int), seen.deep_view()) == Err::<
                    Seq<Seq<char>>,
                    Seq<char>,
                >(label_long_msg(lv[i as int])));
            }
            return Err(
                counted_msg("Label too long: ", label_str.len(), " characters (max 100)"),
            );
        }
        if label_str.is_empty() || !check_label_chars(label_str) {
            proof {
                assert(!(lv[i as int].len() > 0 && all_label_chars(lv[i as int])));
                assert(sanitize_labels_seq(lv.skip(i as int), seen.deep_view()) == Err::<
                    Seq<Seq<char>>,
                    Seq<char>,
                >(
                    "Label contains invalid characters. Only alphanumeric characters, hyphens, underscores, and periods are allowed"@,
                ));
            }
            return Err(
                String::from_str(
                    "Label contains invalid characters. Only alphanumeric characters, hyphens, underscores, and periods are allowed",
                ),
            );
        }
        let trimmed = trim_str(label_str);
        let lowered = crate::text::ascii_lower(trimmed.as_str());
        let keep = !lowered.as_str().is_empty() && !contains_string(&seen, &lowered);
        if keep {
            let ghost old_out = out.deep_view();
            let ghost old_seen = seen.deep_view();
            let ghost t = lowered@;
            let copy = lowered.clone();
            out.push(lowered);
            seen.push(copy);
            proof {
                assert(out.deep_view() =~= old_out + seq![t]);
                assert(seen.deep_view() =~= old_seen.push(t));
                let rem = sanitize_labels_seq(lv.skip(i + 1), old_seen.push(t));
                if rem is Ok {
                    assert(old_out + (seq![t] + rem->Ok_0) =~= (old_out + seq![t]) + rem->Ok_0);
                }
            }
        }
        i = i + 1;
    }
    proof {
        assert(lv.skip(lv.len() as int) =~= Seq::<Seq<char>>::empty());
        assert(out.deep_view() + Seq::<Seq<char>>::empty() =~= out.deep_view());
    }
    Ok(out)
}

/// What `str::to_lowercase` returns; the result is a function of the
/// characters alone.
pub uninterp spec fn lower_of(s: Seq<char>) -> Seq<char>;

/// Relies on str::to_lowercase: the Unicode lowercase form of the string,
/// determined by its characters alone.
#[verifier::external_body]
fn lowercase(s: &str) -> (r: String)
    ensures
        r@ == lower_of(s@),
{
    s.to_lowercase()
}

/// An execution mode is accepted when its lowercase form is
/// `sequential` or `parallel`.
pub open spec fn acceptable_mode(s: Seq<char>) -> bool {
    lower_of(s) == "sequential"@ || lower_of(s) == "parallel"@
}

/// The error text a rejected execution mode gets.
pub open spec fn mode_error() -> Seq<char> {
    "Execution mode must be 'sequential' or 'parallel'"@
}

/// Accepts an execution mode whose lowercase form is `sequential` or
/// `parallel`, returning that lowercase form.
pub fn validate_execution_mode(mode: &str) -> (r: Result<String, String>)
    ensures
        match r {
            Ok(v) => acceptable_mode(mode@) && v@ == lower_of(mode@),
            Err(e) => !acceptable_mode(mode@) && e@ == mode_error(),
        },
{
    let lower = lowercase(mode);
    let sequential = String::from_str("sequential");
    let parallel = String::from_str("parallel");
    if lower == sequential || lower == parallel {
        Ok(lower)
    } else {
        Err(String::from_str("Execution mode must be 'sequential' or 'parallel'"))
    }
}

} // verus!
