//! Project bookkeeping around the preview tool: workspace paths, project
//! name validation and derived identifiers, and the exact text of the
//! workspace manifest and build-file edits.
//!
//! Reading and writing the files, and walking directories, happen outside
//! the library; the library computes every path, identifier and file body
//! from plain values.

use vstd::prelude::*;
use vstd::string::*;

use crate::text::dec_str;
use crate::text::has_prefix;
use crate::text::hex_str;
use crate::text::joined;
use crate::text::trimmed;
use crate::text::trimmed_front;
use crate::text::u64_to_dec;
use crate::text::u64_to_hex;
use crate::text::zero_padded;
use crate::text::pad_zeros;

verus! {

/// Metadata of a project on disk.
#[derive(Clone, Debug)]
pub struct ProjectMeta {
    pub id: String,
    pub name: String,
    pub description: String,
    pub framework_id: Option<String>,
    pub template: Option<String>,
    pub ui_framework: Option<String>,
    pub components: Option<Vec<String>>,
    pub build_formats: Option<Vec<String>>,
    pub created_at: String,
    pub updated_at: String,
    pub path: String,
}

/// What a create-project request carries.
#[derive(Clone, Debug)]
pub struct CreateProjectInput {
    pub name: String,
    pub display_name: Option<String>,
    pub description: String,
    pub template: String,
    pub ui_framework: String,
    pub framework_id: Option<String>,
    pub vendor_name: Option<String>,
    pub vendor_url: Option<String>,
    pub vendor_email: Option<String>,
    pub components: Option<Vec<String>>,
    pub build_formats: Option<Vec<String>>,
}

/// The workspace directory under the user's home directory.
pub fn get_workspace_path(home: &str) -> (r: String)
    ensures
        r@ == home@ + "/Freqlab"@,
{
    let mut r = home.to_owned();
    r.append("/Freqlab");
    r
}

/// The build-output directory.
pub fn get_output_path(home: &str) -> (r: String)
    ensures
        r@ == home@ + "/Freqlab"@ + "/output"@,
{
    let mut r = get_workspace_path(home);
    r.append("/output");
    r
}

/// The projects directory.
pub fn get_projects_path(home: &str) -> (r: String)
    ensures
        r@ == home@ + "/Freqlab"@ + "/projects"@,
{
    let mut r = get_workspace_path(home);
    r.append("/projects");
    r
}

/// The local framework-documentation checkout.
pub fn get_nih_plug_docs_path(home: &str) -> (r: String)
    ensures
        r@ == home@ + "/Freqlab"@ + "/.nih-plug-docs"@,
{
    let mut r = get_workspace_path(home);
    r.append("/.nih-plug-docs");
    r
}

pub open spec fn is_ascii_lower(c: char) -> bool {
    97 <= c as int <= 122
}

pub open spec fn is_ascii_digit_char(c: char) -> bool {
    48 <= c as int <= 57
}

/// A character a project name may contain.
pub open spec fn is_name_char(c: char) -> bool {
    is_ascii_lower(c) || is_ascii_digit_char(c) || c == '_' || c == '-'
}

/// A folder-safe plugin name: nonempty, at most fifty characters, starting
/// with a lowercase letter, all characters lowercase letters, digits,
/// hyphens or underscores.
pub open spec fn valid_project_name(s: Seq<char>) -> bool {
    &&& s.len() > 0
    &&& s.len() <= 50
    &&& is_ascii_lower(s[0])
    &&& forall|i: int| 0 <= i < s.len() ==> is_name_char(#[trigger] s[i])
}

/// Validate a plugin name; accepts exactly the valid names, and names the
/// first failing rule otherwise.
pub fn validate_name(name: &str) -> (r: Result<(), String>)
    ensures
        r is Ok <==> valid_project_name(name@),
        r matches Err(e) ==> e@ == (if name@.len() == 0 {
            "Name cannot be empty"@
        } else if name@.len() > 50 {
            "Name too long (max 50 chars)"@
        } else if !is_ascii_lower(name@[0]) {
            "Name must start with a lowercase letter"@
        } else {
            "Name can only contain lowercase letters, numbers, hyphens, and underscores"@
        }),
{
    let n = name.unicode_len();
    if n == 0 {
        return Err("Name cannot be empty".to_owned());
    }
    if n > 50 {
        return Err("Name too long (max 50 chars)".to_owned());
    }
    let first = name.get_char(0);
    if !(first as u32 >= 97 && first as u32 <= 122) {
        return Err("Name must start with a lowercase letter".to_owned());
    }
    let mut i: usize = 0;
    while i < n
        invariant
            n == name@.len(),
            0 < n <= 50,
            is_ascii_lower(name@[0]),
            i <= n,
            forall|j: int| 0 <= j < i ==> is_name_char(#[trigger] name@[j]),
        decreases n - i,
    {
        let c = name.get_char(i);
        if !((c as u32 >= 97 && c as u32 <= 122) || (c as u32 >= 48 && c as u32 <= 57) || c == '_'
            || c == '-') {
            return Err(
                "Name can only contain lowercase letters, numbers, hyphens, and underscores".to_owned(),
            );
        }
        i = i + 1;
    }
    Ok(())
}

/// Convert a name to a valid module identifier (underscores for hyphens).
pub fn to_snake_case(name: &str) -> (r: String)
    ensures
        r@ == crate::text::replaced(name@, "-"@, "_"@),
{
    proof {
        reveal_strlit("-");
    }
    crate::text::replace(name, "-", "_")
}

/// Uppercase an ASCII letter; other characters stay as they are.
pub open spec fn ascii_upper(c: char) -> char {
    if is_ascii_lower(c) {
        ((c as u8) - 0x20) as char
    } else {
        c
    }
}

/// The PascalCase form: words split on hyphens and underscores, each
/// word's first character uppercased, separators dropped.
pub open spec fn pascal_of(s: Seq<char>, at_word_start: bool) -> Seq<char>
    decreases s.len(),
{
    if s.len() == 0 {
        Seq::empty()
    } else if s[0] == '-' || s[0] == '_' {
        pascal_of(s.skip(1), true)
    } else {
        seq![
            if at_word_start {
                ascii_upper(s[0])
            } else {
                s[0]
            },
        ] + pascal_of(s.skip(1), false)
    }
}

/// Convert a name to PascalCase for type names.
pub fn to_pascal_case(name: &str) -> (r: String)
    ensures
        r@ == pascal_of(name@, true),
{
    let n = name.unicode_len();
    let mut r = String::new();
    let mut i: usize = 0;
    let mut at_start: bool = true;
    proof {
        assert(name@.skip(0) =~= name@);
    }
    while i < n
        invariant
            n == name@.len(),
            i <= n,
            pascal_of(name@, true) == r@ + pascal_of(name@.skip(i as int), at_start),
        decreases n - i,
    {
        let c = name.get_char(i);
        proof {
            assert(name@.skip(i as int).skip(1) =~= name@.skip(i + 1));
        }
        if c == '-' || c == '_' {
            at_start = true;
        } else {
            let mapped: char = if at_start && c as u32 >= 97 && c as u32 <= 122 {
                (((c as u8) - 0x20) as char)
            } else {
                c
            };
            proof {
                assert((r@ + seq![
                    if at_start {
                        ascii_upper(name@[i as int])
                    } else {
                        name@[i as int]
                    },
                ]) + pascal_of(name@.skip(i + 1), false) =~= r@ + (seq![
                    if at_start {
                        ascii_upper(name@[i as int])
                    } else {
                        name@[i as int]
                    },
                ] + pascal_of(name@.skip(i + 1), false)));
            }
            crate::text::push_char(&mut r, mapped);
            at_start = false;
        }
        i = i + 1;
    }
    proof {
        assert(name@.skip(n as int) =~= Seq::<char>::empty());
        assert(r@ + Seq::<char>::empty() =~= r@);
    }
    r
}

/// A deterministic 64-bit polynomial fingerprint of a name, folded left to
/// right as `h·31 + code point`, wrapping at 2⁶⁴.
pub open spec fn fingerprint64(s: Seq<char>) -> nat
    decreases s.len(),
{
    if s.len() == 0 {
        7usize as nat
    } else {
        (fingerprint64(s.drop_last()) * 31 + (s.last() as nat)) % 0x1_0000_0000_0000_0000
    }
}

fn fingerprint64_exec(s: &str) -> (r: u64)
    ensures
        r == fingerprint64(s@),
{
    let n = s.unicode_len();
    let mut h: u64 = 7;
    let mut i: usize = 0;
    proof {
        assert(s@.take(0) =~= Seq::<char>::empty());
    }
    while i < n
        invariant
            n == s@.len(),
            i <= n,
            h == fingerprint64(s@.take(i as int)),
        decreases n - i,
    {
        let c = s.get_char(i);
        let wide: u128 = (h as u128) * 31 + (c as u128);
        proof {
            assert(s@.take(i + 1).drop_last() =~= s@.take(i as int));
            assert(s@.take(i + 1).last() == s@[i as int]);
        }
        h = (wide % 0x1_0000_0000_0000_0000u128) as u64;
        i = i + 1;
    }
    proof {
        assert(s@.take(n as int) =~= s@);
    }
    h
}

/// Generate a unique VST3 class id from the plugin name: a fixed prefix and
/// five digits of the name's fingerprint.
pub fn generate_vst3_id(name: &str) -> (r: String)
    ensures
        r@ == "Freqlab"@ + zero_padded(dec_str(fingerprint64(name@) % 100000), 5),
{
    let h = fingerprint64_exec(name);
    let digits = u64_to_dec(h % 100000);
    let padded = pad_zeros(digits.as_str(), 5);
    let mut r = "Freqlab".to_owned();
    r.append(padded.as_str());
    r
}

/// Generate the four-hex-digit plugin code from the plugin name.
pub fn generate_plugin_code(name: &str) -> (r: String)
    ensures
        r@ == zero_padded(hex_str(fingerprint64(name@) % 0xFFFF), 4),
{
    let h = fingerprint64_exec(name);
    let digits = u64_to_hex(h % 0xFFFF);
    pad_zeros(digits.as_str(), 4)
}

/// The lowercase alphanumeric form of a vendor name, for bundle
/// identifiers.
pub open spec fn ascii_lower(c: char) -> char {
    if 65 <= c as int <= 90 {
        ((c as u8) + 0x20) as char
    } else {
        c
    }
}

pub open spec fn is_ascii_alnum(c: char) -> bool {
    is_ascii_lower(c) || is_ascii_digit_char(c)
}

/// Lowercased, with everything but ASCII letters and digits dropped.
pub open spec fn vendor_id_of(s: Seq<char>) -> Seq<char>
    decreases s.len(),
{
    if s.len() == 0 {
        Seq::empty()
    } else {
        vendor_id_of(s.drop_last()) + (if is_ascii_alnum(ascii_lower(s.last())) {
            seq![ascii_lower(s.last())]
        } else {
            Seq::<char>::empty()
        })
    }
}

pub fn vendor_id(vendor_name: &str) -> (r: String)
    ensures
        r@ == vendor_id_of(vendor_name@),
{
    let n = vendor_name.unicode_len();
    let mut r = String::new();
    let mut i: usize = 0;
    proof {
        assert(vendor_name@.take(0) =~= Seq::<char>::empty());
    }
    while i < n
        invariant
            n == vendor_name@.len(),
            i <= n,
            r@ == vendor_id_of(vendor_name@.take(i as int)),
        decreases n - i,
    {
        let c = vendor_name.get_char(i);
        let lowered: char = if c as u32 >= 65 && c as u32 <= 90 {
            (((c as u8) + 0x20) as char)
        } else {
            c
        };
        proof {
            assert(vendor_name@.take(i + 1).drop_last() =~= vendor_name@.take(i as int));
            assert(vendor_name@.take(i + 1).last() == vendor_name@[i as int]);
        }
        if (lowered as u32 >= 97 && lowered as u32 <= 122) || (lowered as u32 >= 48 && lowered
            as u32 <= 57) {
            proof {
                assert(r@ + seq![ascii_lower(vendor_name@[i as int])] =~= vendor_id_of(
                    vendor_name@.take(i + 1),
                ));
            }
            crate::text::push_char(&mut r, lowered);
        } else {
            proof {
                assert(r@ + Seq::<char>::empty() =~= r@);
            }
        }
        i = i + 1;
    }
    proof {
        assert(vendor_name@.take(n as int) =~= vendor_name@);
    }
    r
}

/// The uppercased form of a sequence of ASCII characters.
pub open spec fn upper_all(s: Seq<char>) -> Seq<char> {
    s.map(|i: int, c: char| ascii_upper(c))
}

/// The four-character manufacturer code: the first four characters of the
/// vendor id uppercased, or the whole id padded on the right with zeros.
pub open spec fn mfr_id_of(vendor: Seq<char>) -> Seq<char> {
    if vendor.len() >= 4 {
        upper_all(vendor.take(4))
    } else {
        upper_all(vendor) + Seq::new((4 - vendor.len()) as nat, |i: int| '0')
    }
}

pub fn mfr_id(vendor: &str) -> (r: String)
    ensures
        r@ == mfr_id_of(vendor@),
{
    let n = vendor.unicode_len();
    let limit: usize = if n >= 4 {
        4
    } else {
        n
    };
    let mut r = String::new();
    let mut i: usize = 0;
    while i < limit
        invariant
            n == vendor@.len(),
            limit as int == (if n >= 4 {
                4int
            } else {
                n as int
            }),
            i <= limit,
            r@ == upper_all(vendor@.take(limit as int)).take(i as int),
        decreases limit - i,
    {
        let c = vendor.get_char(i);
        let up: char = if c as u32 >= 97 && c as u32 <= 122 {
            (((c as u8) - 0x20) as char)
        } else {
            c
        };
        proof {
            assert(upper_all(vendor@.take(limit as int)).take(i + 1) =~= upper_all(
                vendor@.take(limit as int),
            ).take(i as int).push(ascii_upper(vendor@[i as int])));
            assert(r@.push(ascii_upper(vendor@[i as int])) =~= r@ + seq![
                ascii_upper(vendor@[i as int]),
            ]);
        }
        crate::text::push_char(&mut r, up);
        i = i + 1;
    }
    proof {
        assert(upper_all(vendor@.take(limit as int)).take(limit as int) =~= upper_all(
            vendor@.take(limit as int),
        ));
    }
    if n >= 4 {
        proof {
            assert(r@ =~= mfr_id_of(vendor@));
        }
        r
    } else {
        let mut k: usize = n;
        proof {
            assert(vendor@.take(n as int) =~= vendor@);
            assert(r@ + Seq::new(0, |i: int| '0') =~= r@);
        }
        while k < 4
            invariant
                n == vendor@.len(),
                n < 4,
                n <= k <= 4,
                r@ == upper_all(vendor@) + Seq::new((k - n) as nat, |i: int| '0'),
            decreases 4 - k,
        {
            proof {
                reveal_strlit("0");
                assert(r@ + "0"@ =~= upper_all(vendor@) + Seq::new((k + 1 - n) as nat, |i: int| '0'));
            }
            r.append("0");
            k = k + 1;
        }
        proof {
            assert(r@ =~= mfr_id_of(vendor@));
        }
        r
    }
}

/// The description with double quotes escaped for embedding in a manifest.
pub fn escape_description(description: &str) -> (r: String)
    ensures
        r@ == crate::text::replaced(description@, "\""@, "\\\""@),
{
    proof {
        reveal_strlit("\"");
    }
    crate::text::replace(description, "\"", "\\\"")
}

/// Where a template file lands in a new project, relative to the project
/// root: files with an explicit relative path keep it; build and resource
/// configuration stays at the root; resource files go under `resources/`
/// (property lists and interface files with the type-name prefix); source
/// files go under `src/`.
pub open spec fn template_output_spec(filename: Seq<char>, pascal_name: Seq<char>) -> Seq<char> {
    if crate::text::contains_sub(filename, "/"@) || crate::text::contains_sub(filename, "\\"@) {
        filename
    } else if filename == "Cargo.toml"@ || filename == "CMakeLists.txt"@ {
        filename
    } else if filename == "config.h"@ || filename == "resource.h"@ {
        filename
    } else if has_prefix(filename, "main.rc_mac"@) {
        "resources/"@ + filename
    } else if crate::text::has_suffix(filename, ".plist"@) || crate::text::has_suffix(
        filename,
        ".xib"@,
    ) {
        "resources/"@ + pascal_name + "-"@ + filename
    } else if crate::text::has_suffix(filename, ".rs"@) || crate::text::has_suffix(
        filename,
        ".cpp"@,
    ) || crate::text::has_suffix(filename, ".h"@) {
        "src/"@ + filename
    } else {
        filename
    }
}

pub fn template_output_path(filename: &str, pascal_name: &str) -> (r: String)
    ensures
        r@ == template_output_spec(filename@, pascal_name@),
{
    if crate::text::contains(filename, "/") || crate::text::contains(filename, "\\") {
        return filename.to_owned();
    }
    if crate::text::str_eq(filename, "Cargo.toml") || crate::text::str_eq(
        filename,
        "CMakeLists.txt",
    ) {
        return filename.to_owned();
    }
    if crate::text::str_eq(filename, "config.h") || crate::text::str_eq(filename, "resource.h") {
        return filename.to_owned();
    }
    if crate::text::starts_with(filename, "main.rc_mac") {
        let mut r = "resources/".to_owned();
        r.append(filename);
        return r;
    }
    if crate::text::ends_with(filename, ".plist") || crate::text::ends_with(filename, ".xib") {
        let mut r = "resources/".to_owned();
        r.append(pascal_name);
        r.append("-");
        r.append(filename);
        proof {
            assert(r@ =~= "resources/"@ + pascal_name@ + "-"@ + filename@);
        }
        return r;
    }
    if crate::text::ends_with(filename, ".rs") || crate::text::ends_with(filename, ".cpp")
        || crate::text::ends_with(filename, ".h") {
        let mut r = "src/".to_owned();
        r.append(filename);
        return r;
    }
    filename.to_owned()
}

/// Each member quoted for the workspace manifest.
pub open spec fn quoted_all(v: Seq<Seq<char>>) -> Seq<Seq<char>>
    decreases v.len(),
{
    if v.len() == 0 {
        Seq::empty()
    } else {
        quoted_all(v.drop_last()).push("\""@ + v.last() + "\""@)
    }
}

/// The members line of the workspace manifest: the given project entries
/// plus the build helper, quoted and comma separated — or the helper alone.
pub open spec fn members_line_spec(projects: Seq<Seq<char>>) -> Seq<char> {
    if projects.len() == 0 {
        "members = [\"xtask\"]"@
    } else {
        "members = ["@ + joined(quoted_all(projects.push("xtask"@)), ", "@) + "]"@
    }
}

pub fn workspace_members_line(projects: &Vec<String>) -> (r: String)
    ensures
        r@ == members_line_spec(projects.deep_view()),
{
    if projects.len() == 0 {
        return "members = [\"xtask\"]".to_owned();
    }
    let mut quoted: Vec<String> = Vec::new();
    let mut i: usize = 0;
    proof {
        assert(projects.deep_view().take(0) =~= Seq::<Seq<char>>::empty());
        assert(quoted.deep_view() =~= quoted_all(projects.deep_view().take(0)));
    }
    while i < projects.len()
        invariant
            i <= projects.deep_view().len(),
            projects.deep_view().len() == projects@.len(),
            quoted.deep_view() == quoted_all(projects.deep_view().take(i as int)),
        decreases projects@.len() - i,
    {
        let mut q = "\"".to_owned();
        let p: &String = &projects[i];
        assert(p@ == projects.deep_view()[i as int]);
        q.append(p.as_str());
        q.append("\"");
        proof {
            assert(projects.deep_view().take(i + 1).drop_last() =~= projects.deep_view().take(
                i as int,
            ));
            assert(projects.deep_view().take(i + 1).last() == projects.deep_view()[i as int]);
            assert(quoted.deep_view().push(q@) =~= quoted_all(projects.deep_view().take(i + 1)));
        }
        quoted.push(q);
        i = i + 1;
    }
    proof {
        assert(projects.deep_view().take(i as int) =~= projects.deep_view());
    }
    let mut xq = "\"".to_owned();
    xq.append("xtask");
    xq.append("\"");
    proof {
        reveal_strlit("xtask");
        assert(projects.deep_view().push("xtask"@).drop_last() =~= projects.deep_view());
        assert(projects.deep_view().push("xtask"@).last() == "xtask"@);
        assert(xq@ == "\""@ + "xtask"@ + "\""@);
        assert(quoted.deep_view().push(xq@) =~~= quoted_all(projects.deep_view().push("xtask"@)));
    }
    let ghost before_push = quoted.deep_view();
    quoted.push(xq);
    proof {
        assert(quoted.deep_view() =~~= before_push.push(xq@));
        assert(quoted.deep_view() == quoted_all(projects.deep_view().push("xtask"@)));
    }
    let inner = crate::text::join(&quoted, ", ");
    let mut r = "members = [".to_owned();
    r.append(inner.as_str());
    r.append("]");
    proof {
        assert(r@ =~= members_line_spec(projects.deep_view()));
    }
    r
}

/// The whole workspace manifest body for a members line.
pub open spec fn workspace_manifest_spec(members_line: Seq<char>) -> Seq<char> {
    "[workspace]\n"@ + members_line
        + "\nresolver = \"2\"\n\n[profile.release]\nlto = \"thin\"\nstrip = \"symbols\"\n"@
}

pub fn workspace_manifest(members_line: &str) -> (r: String)
    ensures
        r@ == workspace_manifest_spec(members_line@),
{
    let mut r = "[workspace]\n".to_owned();
    r.append(members_line);
    r.append("\nresolver = \"2\"\n\n[profile.release]\nlto = \"thin\"\nstrip = \"symbols\"\n");
    proof {
        assert(r@ =~= workspace_manifest_spec(members_line@));
    }
    r
}

/// A build-file line after the formats edit: a line whose trimmed form
/// starts the formats list is replaced by its indentation, the keyword and
/// the new value; any other line is kept.
pub open spec fn formats_line_rewritten(line: Seq<char>, new_value: Seq<char>) -> Seq<char> {
    if has_prefix(trimmed(line), "FORMATS "@) {
        line.take(line.len() - trimmed_front(line).len()) + "FORMATS "@ + new_value
    } else {
        line
    }
}

/// Count of leading whitespace characters.
fn leading_ws(line: &str) -> (r: usize)
    ensures
        r == line@.len() - trimmed_front(line@).len(),
        r <= line@.len(),
{
    let n = line.unicode_len();
    let mut a: usize = 0;
    proof {
        assert(line@.skip(0) =~= line@);
    }
    while a < n && (line.get_char(a) == ' ' || line.get_char(a) == '\t' || line.get_char(a)
        == '\r' || line.get_char(a) == '\n')
        invariant
            n == line@.len(),
            a <= n,
            trimmed_front(line@) == trimmed_front(line@.skip(a as int)),
        decreases n - a,
    {
        proof {
            assert(line@.skip(a as int).skip(1) =~= line@.skip(a + 1));
        }
        a = a + 1;
    }
    proof {
        assert(trimmed_front(line@) == line@.skip(a as int));
    }
    a
}

/// Rewrite the formats line among a file's lines; says whether one was
/// found.
pub fn rewrite_formats_lines(lines: &Vec<String>, new_value: &str) -> (r: (Vec<String>, bool))
    ensures
        r.0@.len() == lines@.len(),
        forall|i: int|
            0 <= i < lines@.len() ==> (#[trigger] r.0@[i])@ == formats_line_rewritten(
                lines.deep_view()[i],
                new_value@,
            ),
        r.1 == (exists|i: int|
            0 <= i < lines@.len() && has_prefix(trimmed(#[trigger] lines.deep_view()[i]), "FORMATS "@)),
{
    let mut out: Vec<String> = Vec::new();
    let mut found: bool = false;
    let mut i: usize = 0;
    while i < lines.len()
        invariant
            i <= lines@.len(),
            out@.len() == i,
            lines.deep_view().len() == lines@.len(),
            forall|j: int|
                0 <= j < i ==> (#[trigger] out@[j])@ == formats_line_rewritten(
                    lines.deep_view()[j],
                    new_value@,
                ),
            found == (exists|j: int|
                0 <= j < i && has_prefix(trimmed(#[trigger] lines.deep_view()[j]), "FORMATS "@)),
        decreases lines@.len() - i,
    {
        let line: &String = &lines[i];
        assert(line@ == lines.deep_view()[i as int]);
        let t = crate::text::trim(line.as_str());
        if crate::text::starts_with(t, "FORMATS ") {
            let ws = leading_ws(line.as_str());
            let indent = line.as_str().substring_char(0, ws);
            let mut nl = indent.to_owned();
            nl.append("FORMATS ");
            nl.append(new_value);
            proof {
                assert(indent@ =~= line@.take(ws as int));
                assert(nl@ =~= formats_line_rewritten(line@, new_value@));
            }
            out.push(nl);
            found = true;
        } else {
            out.push(line.clone());
        }
        i = i + 1;
    }
    (out, found)
}

} // verus!
