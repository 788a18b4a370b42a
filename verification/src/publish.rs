//! Publishing built plugins to host-application folders and packaging
//! them: the path and format rules.
//!
//! Copying bundles, scanning output folders and writing archives happen
//! outside the library; the library decides where things go and which
//! formats are selected, from plain values.

use vstd::prelude::*;
use vstd::string::*;

use crate::text::has_prefix;

verus! {

/// One target host application's install folders, one per plugin format
/// (empty means the format is not installed there).
#[derive(Clone, Debug)]
pub struct DawPublishTarget {
    pub daw: String,
    pub vst3_path: String,
    pub clap_path: String,
    pub au_path: String,
    pub auv3_path: String,
    pub aax_path: String,
    pub lv2_path: String,
    pub standalone_path: String,
}

/// The outcome of a publish run.
#[derive(Clone, Debug)]
pub struct PublishResult {
    pub success: bool,
    pub copied: Vec<CopiedFile>,
    pub errors: Vec<String>,
}

/// One bundle copied to one target.
#[derive(Clone, Debug)]
pub struct CopiedFile {
    pub format: String,
    pub daw: String,
    pub path: String,
}

/// Which plugin formats exist in a version's output folder.
#[derive(Clone, Copy, PartialEq, Eq, Structural, Debug, Default)]
pub struct AvailableFormats {
    pub vst3: bool,
    pub clap: bool,
    pub au: bool,
    pub auv3: bool,
    pub aax: bool,
    pub lv2: bool,
    pub standalone: bool,
}

/// The outcome of packaging into an archive.
#[derive(Clone, Debug)]
pub struct PackageResult {
    pub success: bool,
    pub zip_path: String,
    pub included: Vec<String>,
}

/// Expand a leading tilde (either separator spelling) to the home
/// directory.
pub fn expand_tilde(path: &str, home: &str) -> (r: String)
    ensures
        has_prefix(path@, "~/"@) || has_prefix(path@, "~\\"@) ==> r@ == home@ + "/"@ + path@.skip(
            2,
        ),
        !(has_prefix(path@, "~/"@) || has_prefix(path@, "~\\"@)) ==> r@ == path@,
{
    proof {
        reveal_strlit("~/");
        reveal_strlit("~\\");
    }
    if crate::text::starts_with(path, "~/") || crate::text::starts_with(path, "~\\") {
        let n = path.unicode_len();
        let rest = path.substring_char(2, n);
        proof {
            assert(rest@ =~= path@.skip(2));
        }
        let mut r = home.to_owned();
        r.append("/");
        r.append(rest);
        proof {
            assert(r@ =~= home@ + "/"@ + path@.skip(2));
        }
        r
    } else {
        path.to_owned()
    }
}

/// The versioned output folder name; version zero (no commits yet) maps
/// to the first version for filesystem lookups.
pub fn versioned_folder(version: u32) -> (r: String)
    ensures
        r@ == "v"@ + crate::text::dec_str((if version == 0 {
            1nat
        } else {
            version as nat
        })),
{
    let v: u32 = if version == 0 {
        1
    } else {
        version
    };
    let digits = crate::text::u64_to_dec(v as u64);
    let mut r = "v".to_owned();
    r.append(digits.as_str());
    r
}


/// The plugin-format ids and artifact extensions are pairwise distinct.
proof fn lemma_format_ids_distinct()
    ensures
        "vst3"@ != "clap"@,
        "vst3"@ != "au"@,
        "vst3"@ != "component"@,
        "vst3"@ != "standalone"@,
        "vst3"@ != "app"@,
        "vst3"@ != "auv3"@,
        "vst3"@ != "appex"@,
        "vst3"@ != "aax"@,
        "vst3"@ != "aaxplugin"@,
        "vst3"@ != "lv2"@,
        "clap"@ != "au"@,
        "clap"@ != "component"@,
        "clap"@ != "standalone"@,
        "clap"@ != "app"@,
        "clap"@ != "auv3"@,
        "clap"@ != "appex"@,
        "clap"@ != "aax"@,
        "clap"@ != "aaxplugin"@,
        "clap"@ != "lv2"@,
        "au"@ != "component"@,
        "au"@ != "standalone"@,
        "au"@ != "app"@,
        "au"@ != "auv3"@,
        "au"@ != "appex"@,
        "au"@ != "aax"@,
        "au"@ != "aaxplugin"@,
        "au"@ != "lv2"@,
        "component"@ != "standalone"@,
        "component"@ != "app"@,
        "component"@ != "auv3"@,
        "component"@ != "appex"@,
        "component"@ != "aax"@,
        "component"@ != "aaxplugin"@,
        "component"@ != "lv2"@,
        "standalone"@ != "app"@,
        "standalone"@ != "auv3"@,
        "standalone"@ != "appex"@,
        "standalone"@ != "aax"@,
        "standalone"@ != "aaxplugin"@,
        "standalone"@ != "lv2"@,
        "app"@ != "auv3"@,
        "app"@ != "appex"@,
        "app"@ != "aax"@,
        "app"@ != "aaxplugin"@,
        "app"@ != "lv2"@,
        "auv3"@ != "appex"@,
        "auv3"@ != "aax"@,
        "auv3"@ != "aaxplugin"@,
        "auv3"@ != "lv2"@,
        "appex"@ != "aax"@,
        "appex"@ != "aaxplugin"@,
        "appex"@ != "lv2"@,
        "aax"@ != "aaxplugin"@,
        "aax"@ != "lv2"@,
        "aaxplugin"@ != "lv2"@,
{
    reveal_strlit("vst3");
    reveal_strlit("clap");
    reveal_strlit("au");
    reveal_strlit("component");
    reveal_strlit("standalone");
    reveal_strlit("app");
    reveal_strlit("auv3");
    reveal_strlit("appex");
    reveal_strlit("aax");
    reveal_strlit("aaxplugin");
    reveal_strlit("lv2");
    assert("vst3"@.len() == 4);
    assert("clap"@.len() == 4);
    assert("au"@.len() == 2);
    assert("component"@.len() == 9);
    assert("standalone"@.len() == 10);
    assert("app"@.len() == 3);
    assert("auv3"@.len() == 4);
    assert("appex"@.len() == 5);
    assert("aax"@.len() == 3);
    assert("aaxplugin"@.len() == 9);
    assert("lv2"@.len() == 3);
    assert("vst3"@[0] == 'v');
    assert("clap"@[0] == 'c');
    assert("au"@[0] == 'a');
    assert("component"@[0] == 'c');
    assert("standalone"@[0] == 's');
    assert("app"@[0] == 'a');
    assert("auv3"@[0] == 'a');
    assert("appex"@[0] == 'a');
    assert("aax"@[0] == 'a');
    assert("aaxplugin"@[0] == 'a');
    assert("lv2"@[0] == 'l');
    assert("app"@[1] == 'p');
    assert("aax"@[1] == 'a');
}

/// The artifact file extension of a plugin format id, if the id is known.
pub fn format_extension(format_id: &str) -> (r: Option<&'static str>)
    ensures
        format_id@ == "vst3"@ ==> (r matches Some(e) && e@ == "vst3"@),
        format_id@ == "clap"@ ==> (r matches Some(e) && e@ == "clap"@),
        format_id@ == "au"@ ==> (r matches Some(e) && e@ == "component"@),
        format_id@ == "standalone"@ ==> (r matches Some(e) && e@ == "app"@),
        format_id@ == "auv3"@ ==> (r matches Some(e) && e@ == "appex"@),
        format_id@ == "aax"@ ==> (r matches Some(e) && e@ == "aaxplugin"@),
        format_id@ == "lv2"@ ==> (r matches Some(e) && e@ == "lv2"@),
        format_id@ != "vst3"@ && format_id@ != "clap"@ && format_id@ != "au"@ && format_id@
            != "standalone"@ && format_id@ != "auv3"@ && format_id@ != "aax"@ && format_id@
            != "lv2"@ ==> r is None,
{
    proof {
        lemma_format_ids_distinct();
    }
    if crate::text::str_eq(format_id, "vst3") {
        Some("vst3")
    } else if crate::text::str_eq(format_id, "clap") {
        Some("clap")
    } else if crate::text::str_eq(format_id, "au") {
        Some("component")
    } else if crate::text::str_eq(format_id, "standalone") {
        Some("app")
    } else if crate::text::str_eq(format_id, "auv3") {
        Some("appex")
    } else if crate::text::str_eq(format_id, "aax") {
        Some("aaxplugin")
    } else if crate::text::str_eq(format_id, "lv2") {
        Some("lv2")
    } else {
        None
    }
}

/// Whether one artifact extension occurs among those found.
pub open spec fn has_ext(exts: Seq<Seq<char>>, wanted: Seq<char>) -> bool {
    exists|i: int| 0 <= i < exts.len() && exts[i] == wanted
}

/// Which formats a list of artifact file extensions shows.
pub fn available_formats_from_extensions(exts: &Vec<String>) -> (r: AvailableFormats)
    ensures
        r.vst3 == has_ext(exts.deep_view(), "vst3"@),
        r.clap == has_ext(exts.deep_view(), "clap"@),
        r.au == has_ext(exts.deep_view(), "component"@),
        r.auv3 == has_ext(exts.deep_view(), "appex"@),
        r.aax == has_ext(exts.deep_view(), "aaxplugin"@),
        r.lv2 == has_ext(exts.deep_view(), "lv2"@),
        r.standalone == has_ext(exts.deep_view(), "app"@),
{
    let mut r = AvailableFormats {
        vst3: false,
        clap: false,
        au: false,
        auv3: false,
        aax: false,
        lv2: false,
        standalone: false,
    };
    let mut i: usize = 0;
    while i < exts.len()
        invariant
            i <= exts@.len(),
            exts.deep_view().len() == exts@.len(),
            r.vst3 == has_ext(exts.deep_view().take(i as int), "vst3"@),
            r.clap == has_ext(exts.deep_view().take(i as int), "clap"@),
            r.au == has_ext(exts.deep_view().take(i as int), "component"@),
            r.auv3 == has_ext(exts.deep_view().take(i as int), "appex"@),
            r.aax == has_ext(exts.deep_view().take(i as int), "aaxplugin"@),
            r.lv2 == has_ext(exts.deep_view().take(i as int), "lv2"@),
            r.standalone == has_ext(exts.deep_view().take(i as int), "app"@),
        decreases exts@.len() - i,
    {
        let e: &String = &exts[i];
        proof {
            lemma_format_ids_distinct();
            assert(e@ == exts.deep_view()[i as int]);
        }
        if crate::text::str_eq(e.as_str(), "vst3") {
            r.vst3 = true;
        } else if crate::text::str_eq(e.as_str(), "clap") {
            r.clap = true;
        } else if crate::text::str_eq(e.as_str(), "component") {
            r.au = true;
        } else if crate::text::str_eq(e.as_str(), "appex") {
            r.auv3 = true;
        } else if crate::text::str_eq(e.as_str(), "aaxplugin") {
            r.aax = true;
        } else if crate::text::str_eq(e.as_str(), "lv2") {
            r.lv2 = true;
        } else if crate::text::str_eq(e.as_str(), "app") {
            r.standalone = true;
        }
        proof {
            assert forall|w: Seq<char>| #[trigger] has_ext(exts.deep_view().take(i + 1), w)
                == (has_ext(exts.deep_view().take(i as int), w) || exts.deep_view()[i as int]
                == w) by {
                if has_ext(exts.deep_view().take(i + 1), w) {
                    let k = choose|k: int|
                        0 <= k < exts.deep_view().take(i + 1).len() && #[trigger] exts.deep_view()
                            .take(i + 1)[k] == w;
                    if k < i {
                        assert(exts.deep_view().take(i as int)[k] == w);
                    }
                } else {
                    if has_ext(exts.deep_view().take(i as int), w) {
                        let k = choose|k: int|
                            0 <= k < exts.deep_view().take(i as int).len()
                                && #[trigger] exts.deep_view().take(i as int)[k] == w;
                        assert(exts.deep_view().take(i + 1)[k] == w);
                    }
                    if exts.deep_view()[i as int] == w {
                        assert(exts.deep_view().take(i + 1)[i as int] == w);
                    }
                }
            }
        }
        i = i + 1;
    }
    proof {
        assert(exts.deep_view().take(i as int) =~= exts.deep_view());
    }
    r
}

/// Whether a format is selected for publishing: everything when no
/// selection was given, else exactly the listed ids.
pub fn should_publish(selected: Option<&Vec<String>>, format_id: &str) -> (r: bool)
    ensures
        selected is None ==> r,
        selected matches Some(v) ==> r == has_ext(v.deep_view(), format_id@),
{
    match selected {
        Some(formats) => {
            let mut i: usize = 0;
            while i < formats.len()
                invariant
                    selected == Some(formats),
                    i <= formats@.len(),
                    formats.deep_view().len() == formats@.len(),
                    forall|j: int| 0 <= j < i ==> formats.deep_view()[j] != format_id@,
                decreases formats@.len() - i,
            {
                let f: &String = &formats[i];
                proof {
                    assert(f@ == formats.deep_view()[i as int]);
                }
                if crate::text::str_eq(f.as_str(), format_id) {
                    proof {
                        assert(0 <= i < formats.deep_view().len() && formats.deep_view()[i as int]
                            == format_id@);
                        assert(has_ext(formats.deep_view(), format_id@));
                    }
                    return true;
                }
                i = i + 1;
            }
            false
        },
        None => true,
    }
}

} // verus!
