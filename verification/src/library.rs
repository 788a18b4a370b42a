//! The content library: guides, recipes, references and resources, and the
//! parsing and naming rules around them.
//!
//! Reading the library's files from disk happens outside the verified
//! library; the parsing of frontmatter, placeholder substitution and the
//! derived file names are computed here from plain values.

use vstd::prelude::*;
use vstd::string::*;

use crate::text::find_sub;
use crate::text::replaced;
use crate::text::trimmed;

verus! {

/// License information for a framework.
#[derive(Clone, Debug)]
pub struct LicenseInfo {
    pub name: String,
    pub license_type: String,
    pub summary: String,
    pub details: String,
    pub url: String,
}

#[derive(Clone, Debug)]
pub struct Prerequisites {
    pub required: Vec<String>,
    pub optional: Vec<String>,
}

#[derive(Clone, Debug)]
pub struct OutputFormat {
    pub extension: String,
    pub description: String,
}

#[derive(Clone, Debug)]
pub struct BuildConfig {
    /// Build system kind, such as a cargo or cmake build.
    pub build_system: String,
    pub command: String,
    pub arguments: Vec<String>,
    pub configure_command: Option<String>,
    pub configure_arguments: Option<Vec<String>>,
    pub working_directory: String,
    pub output_directory: String,
    pub artifact_patterns: Option<Vec<String>>,
    /// Format-id to build-system format-name pairs for cmake builds.
    pub cmake_formats: Option<Vec<(String, String)>>,
}

/// Template names per plugin type, as (key, template-name) pairs.
#[derive(Clone, Debug)]
pub struct TemplateMapping {
    pub effect: Vec<(String, String)>,
    pub instrument: Vec<(String, String)>,
}

/// Which guides a framework offers, by role.
#[derive(Clone, Debug)]
pub struct GuidesConfig {
    pub core: Vec<String>,
    pub effect: Vec<String>,
    pub instrument: Vec<String>,
    pub ui: Vec<(String, Vec<String>)>,
    pub shared: Vec<String>,
}

#[derive(Clone, Debug)]
pub struct ComponentConfig {
    pub id: String,
    pub name: String,
    pub description: String,
    pub guide: String,
    pub template_type: Option<String>,
}

/// A guide: framework-specific implementation patterns.
#[derive(Clone, Debug)]
pub struct Guide {
    pub id: String,
    pub name: String,
    pub description: String,
    pub category: String,
    pub framework: Option<String>,
    pub content: String,
    pub source: String,
    pub path: String,
    pub tags: Vec<String>,
    pub internal: bool,
}

/// A recipe: a language-agnostic algorithm description.
#[derive(Clone, Debug)]
pub struct Recipe {
    pub id: String,
    pub name: String,
    pub description: String,
    pub category: String,
    pub content: String,
    pub source: String,
    pub path: String,
    pub tags: Vec<String>,
}

/// A discovery reference.
#[derive(Clone, Debug)]
pub struct Reference {
    pub id: String,
    pub name: String,
    pub description: String,
    pub content: String,
}

/// An external resource.
#[derive(Clone, Debug)]
pub struct Resource {
    pub id: String,
    pub name: String,
    pub description: String,
    pub category: String,
    pub url: String,
    pub content: String,
    pub source: String,
    pub tags: Vec<String>,
}

/// A template file for project creation.
#[derive(Clone, Debug)]
pub struct TemplateFile {
    pub filename: String,
    pub content: String,
}

/// A complete template for a project type.
#[derive(Clone, Debug)]
pub struct Template {
    pub framework_id: String,
    pub template_type: String,
    pub ui_framework: String,
    pub files: Vec<TemplateFile>,
}

/// The outcome of making sure a library item is present in a project's
/// on-demand commands directory.
#[derive(Clone, Debug)]
pub struct EnsuredLibraryItem {
    pub id: String,
    pub name: String,
    pub was_copied: bool,
}

/// The default provenance of library content.
pub fn default_source() -> (r: String)
    ensures
        r@ == "core"@,
{
    "core".to_owned()
}

/// The default build system.
pub fn default_build_system() -> (r: String)
    ensures
        r@ == "cargo"@,
{
    "cargo".to_owned()
}

/// The directory name of a template: plugin type and UI framework.
pub fn template_dir_name(template_type: &str, ui_framework: &str) -> (r: String)
    ensures
        r@ == template_type@ + "-"@ + ui_framework@,
{
    let mut r = template_type.to_owned();
    r.append("-");
    r.append(ui_framework);
    proof {
        assert(r@ =~= template_type@ + "-"@ + ui_framework@);
    }
    r
}

/// The on-demand file name of a guide: underscores become hyphens and the
/// markdown extension is appended.
pub fn guide_filename(component: &str) -> (r: String)
    ensures
        r@ == replaced(component@, "_"@, "-"@) + ".md"@,
{
    proof {
        reveal_strlit("_");
    }
    let mut r = crate::text::replace(component, "_", "-");
    r.append(".md");
    r
}

/// `s` without leading double quotes.
pub open spec fn unq_front(s: Seq<char>) -> Seq<char>
    decreases s.len(),
{
    if s.len() > 0 && s[0] == '"' {
        unq_front(s.skip(1))
    } else {
        s
    }
}

/// `s` without trailing double quotes.
pub open spec fn unq_back(s: Seq<char>) -> Seq<char>
    decreases s.len(),
{
    if s.len() > 0 && s[s.len() - 1] == '"' {
        unq_back(s.take(s.len() - 1))
    } else {
        s
    }
}

/// `s` without surrounding double quotes, as frontmatter values allow.
pub open spec fn unquoted(s: Seq<char>) -> Seq<char> {
    unq_back(unq_front(s))
}

/// Strip surrounding double quotes.
fn unquote(s: &str) -> (r: &str)
    ensures
        r@ == unquoted(s@),
{
    let n = s.unicode_len();
    let mut a: usize = 0;
    proof {
        assert(s@.skip(0) =~= s@);
    }
    while a < n && s.get_char(a) == '"'
        invariant
            n == s@.len(),
            a <= n,
            unq_front(s@) == unq_front(s@.skip(a as int)),
        decreases n - a,
    {
        proof {
            assert(s@.skip(a as int).skip(1) =~= s@.skip(a + 1));
        }
        a = a + 1;
    }
    proof {
        assert(unq_front(s@) == s@.skip(a as int));
    }
    let mut b: usize = n;
    while b > a && s.get_char(b - 1) == '"'
        invariant
            n == s@.len(),
            a <= b <= n,
            unq_front(s@) == s@.skip(a as int),
            unq_back(s@.skip(a as int)) == unq_back(s@.subrange(a as int, b as int)),
        decreases b,
    {
        proof {
            assert(s@.subrange(a as int, b as int).take(b - a - 1) =~= s@.subrange(
                a as int,
                b - 1,
            ));
        }
        b = b - 1;
    }
    proof {
        assert(s@.skip(a as int) =~= s@.subrange(a as int, n as int));
        assert(unq_back(s@.subrange(a as int, b as int)) == s@.subrange(a as int, b as int));
    }
    s.substring_char(a, b)
}

/// Split a trimmed line at its first colon into a trimmed key and a
/// trimmed, unquoted value; lines without a colon give an empty key.
pub open spec fn trimmed_colon_split(line: Seq<char>) -> (Seq<char>, Seq<char>) {
    let t = trimmed(line);
    match crate::claude_md::find_first(t, ":"@) {
        Some(i) => (trimmed(t.take(i)), unquoted(trimmed(t.skip(i + 1)))),
        None => (Seq::empty(), Seq::empty()),
    }
}

/// Parse one frontmatter line into a key/value pair, if it has a nonempty
/// key.
pub fn parse_frontmatter_line(line: &str) -> (r: Option<(String, String)>)
    ensures
        match r {
            Some(kv) => trimmed_colon_split(line@).0.len() > 0 && kv.0@ == trimmed_colon_split(
                line@,
            ).0 && kv.1@ == trimmed_colon_split(line@).1,
            None => trimmed_colon_split(line@).0.len() == 0,
        },
{
    proof {
        reveal_strlit(":");
        crate::claude_md::lemma_find_first(trimmed(line@), ":"@);
    }
    let t = crate::text::trim(line);
    let tn = t.unicode_len();
    match find_sub(t, ":") {
        Some(i) => {
            let key_part = t.substring_char(0, i);
            proof {
                assert(key_part@ =~= trimmed(line@).take(i as int));
            }
            let key = crate::text::trim(key_part);
            let val_part = t.substring_char(i + 1, tn);
            proof {
                assert(val_part@ =~= trimmed(line@).skip(i + 1));
            }
            let val_trimmed = crate::text::trim(val_part);
            let value: String = unquote(val_trimmed).to_owned();
            let kn = key.unicode_len();
            if kn == 0 {
                None
            } else {
                Some((key.to_owned(), value))
            }
        },
        None => None,
    }
}

/// Apply placeholder substitutions to template content: each (key, value)
/// pair replaces both the double-braced and the single-braced spelling of
/// the key, in order.
pub open spec fn placeholders_applied(
    content: Seq<char>,
    pairs: Seq<(Seq<char>, Seq<char>)>,
) -> Seq<char>
    decreases pairs.len(),
{
    if pairs.len() == 0 {
        content
    } else {
        let prev = placeholders_applied(content, pairs.drop_last());
        let key = pairs.last().0;
        let value = pairs.last().1;
        replaced(
            replaced(prev, "{{"@ + key + "}}"@, value),
            "{"@ + key + "}"@,
            value,
        )
    }
}

/// Apply placeholders to template content.
pub fn apply_placeholders(content: &str, placeholders: &Vec<(String, String)>) -> (r: String)
    ensures
        r@ == placeholders_applied(content@, placeholders.deep_view()),
{
    let mut result: String = content.to_owned();
    let mut i: usize = 0;
    proof {
        assert(placeholders.deep_view().take(0) =~= Seq::<(Seq<char>, Seq<char>)>::empty());
    }
    while i < placeholders.len()
        invariant
            i <= placeholders.deep_view().len(),
            placeholders.deep_view().len() == placeholders@.len(),
            result@ == placeholders_applied(content@, placeholders.deep_view().take(i as int)),
        decreases placeholders@.len() - i,
    {
        proof {
            reveal_strlit("{{");
            reveal_strlit("{");
            assert(placeholders.deep_view().take(i + 1).drop_last() =~= placeholders.deep_view()
                .take(i as int));
            assert(placeholders.deep_view().take(i + 1).last()
                == placeholders.deep_view()[i as int]);
        }
        let key: &String = &placeholders[i].0;
        let value: &String = &placeholders[i].1;
        proof {
            assert(key@ == placeholders.deep_view()[i as int].0);
            assert(value@ == placeholders.deep_view()[i as int].1);
        }
        let mut double_pat = "{{".to_owned();
        double_pat.append(key.as_str());
        double_pat.append("}}");
        let mut single_pat = "{".to_owned();
        single_pat.append(key.as_str());
        single_pat.append("}");
        proof {
            assert(double_pat@ =~= "{{"@ + key@ + "}}"@);
            assert(single_pat@ =~= "{"@ + key@ + "}"@);
        }
        let step1 = crate::text::replace(result.as_str(), double_pat.as_str(), value.as_str());
        result = crate::text::replace(step1.as_str(), single_pat.as_str(), value.as_str());
        i = i + 1;
    }
    proof {
        assert(placeholders.deep_view().take(i as int) =~= placeholders.deep_view());
    }
    result
}

/// Capitalize the first letter of a string (ASCII letters; anything else
/// stays).
pub fn capitalize(s: &str) -> (r: String)
    ensures
        r@.len() == s@.len(),
        s@.len() > 0 ==> r@ == seq![crate::projects::ascii_upper(s@[0])] + s@.skip(1),
        s@.len() == 0 ==> r@ == s@,
{
    let n = s.unicode_len();
    if n == 0 {
        return String::new();
    }
    let c = s.get_char(0);
    let up: char = if c as u32 >= 97 && c as u32 <= 122 {
        (((c as u8) - 0x20) as char)
    } else {
        c
    };
    let mut r = String::new();
    crate::text::push_char(&mut r, up);
    let rest = s.substring_char(1, n);
    proof {
        assert(rest@ =~= s@.skip(1));
    }
    r.append(rest);
    proof {
        assert(Seq::<char>::empty() + seq![crate::projects::ascii_upper(s@[0])] =~= seq![
            crate::projects::ascii_upper(s@[0]),
        ]);
    }
    r
}

/// The `.template` suffix is dropped from template file names.
pub fn strip_template_suffix(filename: &str) -> (r: String)
    ensures
        crate::text::has_suffix(filename@, ".template"@) ==> r@ == filename@.take(
            filename@.len() - ".template"@.len(),
        ),
        !crate::text::has_suffix(filename@, ".template"@) ==> r@ == filename@,
{
    let n = filename.unicode_len();
    if crate::text::ends_with(filename, ".template") {
        proof {
            reveal_strlit(".template");
        }
        let m = ".template".unicode_len();
        let kept = filename.substring_char(0, n - m);
        proof {
            assert(kept@ =~= filename@.take(filename@.len() - ".template"@.len()));
        }
        kept.to_owned()
    } else {
        filename.to_owned()
    }
}

/// The on-demand file body of a guide: its name and description as
/// frontmatter, then the content.
pub fn guide_file_content(name: &str, description: &str, content: &str) -> (r: String)
    ensures
        r@ == "---\nname: "@ + name@ + "\ndescription: "@ + description@ + "\n---\n\n"@
            + content@,
{
    let mut r = "---\nname: ".to_owned();
    r.append(name);
    r.append("\ndescription: ");
    r.append(description);
    r.append("\n---\n\n");
    r.append(content);
    proof {
        assert(r@ =~= "---\nname: "@ + name@ + "\ndescription: "@ + description@
            + "\n---\n\n"@ + content@);
    }
    r
}

/// The position of the guide with the given id, if any; the first match
/// wins.
pub fn find_guide_index(guides: &Vec<Guide>, id: &str) -> (r: Option<usize>)
    ensures
        match r {
            Some(i) => i < guides@.len() && guides@[i as int].id@ == id@ && forall|j: int|
                0 <= j < i ==> guides@[j].id@ != id@,
            None => forall|j: int| 0 <= j < guides@.len() ==> guides@[j].id@ != id@,
        },
{
    let mut i: usize = 0;
    while i < guides.len()
        invariant
            i <= guides@.len(),
            forall|j: int| 0 <= j < i ==> guides@[j].id@ != id@,
        decreases guides@.len() - i,
    {
        if crate::text::str_eq(guides[i].id.as_str(), id) {
            return Some(i);
        }
        i = i + 1;
    }
    None
}

/// The position of the recipe with the given id, if any; the first match
/// wins.
pub fn find_recipe_index(recipes: &Vec<Recipe>, id: &str) -> (r: Option<usize>)
    ensures
        match r {
            Some(i) => i < recipes@.len() && recipes@[i as int].id@ == id@ && forall|j: int|
                0 <= j < i ==> recipes@[j].id@ != id@,
            None => forall|j: int| 0 <= j < recipes@.len() ==> recipes@[j].id@ != id@,
        },
{
    let mut i: usize = 0;
    while i < recipes.len()
        invariant
            i <= recipes@.len(),
            forall|j: int| 0 <= j < i ==> recipes@[j].id@ != id@,
        decreases recipes@.len() - i,
    {
        if crate::text::str_eq(recipes[i].id.as_str(), id) {
            return Some(i);
        }
        i = i + 1;
    }
    None
}

/// Hidden files (dot-prefixed) are skipped when loading templates.
pub fn is_hidden_file(filename: &str) -> (r: bool)
    ensures
        r == crate::text::has_prefix(filename@, "."@),
{
    crate::text::starts_with(filename, ".")
}

} // verus!
