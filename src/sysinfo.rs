//! What an installation image is, read off its mounted contents: the candidate files to
//! look at, and the version and architecture that their text or names point to.
use vstd::prelude::*;
use vstd::string::StringExecFns;

verus! {

/// Bytes in one gibibyte.
pub const GIB: u64 = 1073741824;

/// `pat` occurs in `s` as a contiguous run.
pub open spec fn contains_seq(s: Seq<char>, pat: Seq<char>) -> bool {
    exists|i: int| 0 <= i <= s.len() - pat.len() && #[trigger] s.subrange(i, i + pat.len()) == pat
}

/// Relies on `str::contains` with a string pattern: whether `pat` occurs in `s`.
#[verifier::external_body]
fn str_contains(s: &str, pat: &str) -> (r: bool)
    ensures
        r == contains_seq(s@, pat@),
{
    s.contains(pat)
}

/// The version that an information file's text names.
pub open spec fn text_version(c: Seq<char>) -> Seq<char> {
    if contains_seq(c, "Windows 11"@) {
        "Windows 11"@
    } else if contains_seq(c, "Windows 10"@) {
        "Windows 10"@
    } else if contains_seq(c, "Windows Server"@) {
        "Windows Server"@
    } else {
        "Unknown"@
    }
}

/// The architecture that an information file's text names.
pub open spec fn text_architecture(c: Seq<char>) -> Seq<char> {
    if contains_seq(c, "x64"@) || contains_seq(c, "amd64"@) {
        "x64"@
    } else if contains_seq(c, "x86"@) {
        "x86"@
    } else if contains_seq(c, "arm64"@) {
        "ARM64"@
    } else {
        "Unknown"@
    }
}

/// Version and architecture named in the text of an information file.
pub fn parse_system_info_from_text(content: &str) -> (r: (String, String))
    ensures
        r.0@ == text_version(content@),
        r.1@ == text_architecture(content@),
{
    let version = if str_contains(content, "Windows 11") {
        "Windows 11".to_owned()
    } else if str_contains(content, "Windows 10") {
        "Windows 10".to_owned()
    } else if str_contains(content, "Windows Server") {
        "Windows Server".to_owned()
    } else {
        "Unknown".to_owned()
    };
    let arch = if str_contains(content, "x64") || str_contains(content, "amd64") {
        "x64".to_owned()
    } else if str_contains(content, "x86") {
        "x86".to_owned()
    } else if str_contains(content, "arm64") {
        "ARM64".to_owned()
    } else {
        "Unknown".to_owned()
    };
    (version, arch)
}

/// One entry of the image's `sources` directory: its name, and its size in bytes when the
/// size could be read.
pub struct SourceEntry {
    pub file_name: String,
    pub size: Option<u64>,
}

/// The entry is an installation archive.
pub open spec fn is_installer(name: Seq<char>) -> bool {
    contains_seq(name, "install.wim"@) || contains_seq(name, "install.esd"@)
}

/// A rough guess from the archive's size: over four whole gibibytes means 64-bit.
pub open spec fn architecture_by_size(size: Option<u64>) -> Seq<char> {
    match size {
        Some(bytes) => if bytes / GIB > 4 {
            "x64"@
        } else {
            "x86"@
        },
        None => "Unknown"@,
    }
}

/// Version and architecture inferred from the first installation archive among `entries`.
pub open spec fn structure_info(entries: Seq<SourceEntry>) -> (Seq<char>, Seq<char>)
    decreases entries.len(),
{
    if entries.len() == 0 {
        ("Windows ISO"@, "Unknown"@)
    } else if is_installer(entries[0].file_name@) {
        ("Windows"@, architecture_by_size(entries[0].size))
    } else {
        structure_info(entries.drop_first())
    }
}

/// Version and architecture inferred from the entries of the `sources` directory (none if
/// the directory is missing or unreadable).
pub fn infer_system_info_from_structure(entries: &Vec<SourceEntry>) -> (r: (String, String))
    ensures
        (r.0@, r.1@) == structure_info(entries@),
{
    let n = entries.len();
    let mut i: usize = 0;
    assert(entries@.subrange(0, n as int) =~= entries@);
    while i < n
        invariant
            n == entries@.len(),
            i <= n,
            structure_info(entries@) == structure_info(entries@.subrange(i as int, n as int)),
        decreases n - i,
    {
        assert(entries@.subrange(i as int, n as int).drop_first() =~= entries@.subrange(
            i + 1,
            n as int,
        ));
        let entry = &entries[i];
        if str_contains(entry.file_name.as_str(), "install.wim") || str_contains(
            entry.file_name.as_str(),
            "install.esd",
        ) {
            let arch = match entry.size {
                Some(bytes) => if bytes / GIB > 4 {
                    "x64".to_owned()
                } else {
                    "x86".to_owned()
                },
                None => "Unknown".to_owned(),
            };
            return ("Windows".to_owned(), arch);
        }
        i = i + 1;
    }
    ("Windows ISO".to_owned(), "Unknown".to_owned())
}

/// Version and architecture of a mounted image: those read from its installation archive
/// when one could be parsed, else those named in the first readable information file, else
/// those inferred from the entries of its `sources` directory.
pub fn choose_system_info(
    from_archive: Option<(String, String)>,
    info_text: Option<String>,
    entries: &Vec<SourceEntry>,
) -> (r: (String, String))
    ensures
        match from_archive {
            Some(a) => r == a,
            None => match info_text {
                Some(t) => r.0@ == text_version(t@) && r.1@ == text_architecture(t@),
                None => (r.0@, r.1@) == structure_info(entries@),
            },
        },
{
    match from_archive {
        Some(a) => a,
        None => match info_text {
            Some(t) => parse_system_info_from_text(t.as_str()),
            None => infer_system_info_from_structure(entries),
        },
    }
}

/// `base` followed by `tail`.
fn join(base: &str, tail: &str) -> (r: String)
    ensures
        r@ == base@ + tail@,
{
    base.to_owned().concat(tail)
}

/// The installation archives to try, in order, under a mount path.
pub fn wim_candidates(mount_path: &str) -> (r: Vec<String>)
    ensures
        r.deep_view() == seq![
            mount_path@ + "/sources/install.wim"@,
            mount_path@ + "/sources/install.esd"@,
        ],
{
    let mut r: Vec<String> = Vec::new();
    r.push(join(mount_path, "/sources/install.wim"));
    r.push(join(mount_path, "/sources/install.esd"));
    assert(r.deep_view() =~= seq![
        mount_path@ + "/sources/install.wim"@,
        mount_path@ + "/sources/install.esd"@,
    ]);
    r
}

/// The information files to read, in order, under a mount path.
pub fn text_info_candidates(mount_path: &str) -> (r: Vec<String>)
    ensures
        r.deep_view() == seq![
            mount_path@ + "/sources/idwbinfo.txt"@,
            mount_path@ + "/sources/lang.ini"@,
            mount_path@ + "/README.TXT"@,
            mount_path@ + "/sources/ei.cfg"@,
        ],
{
    let mut r: Vec<String> = Vec::new();
    r.push(join(mount_path, "/sources/idwbinfo.txt"));
    r.push(join(mount_path, "/sources/lang.ini"));
    r.push(join(mount_path, "/README.TXT"));
    r.push(join(mount_path, "/sources/ei.cfg"));
    assert(r.deep_view() =~= seq![
        mount_path@ + "/sources/idwbinfo.txt"@,
        mount_path@ + "/sources/lang.ini"@,
        mount_path@ + "/README.TXT"@,
        mount_path@ + "/sources/ei.cfg"@,
    ]);
    r
}

/// The `sources` directory under a mount path.
pub fn sources_dir(mount_path: &str) -> (r: String)
    ensures
        r@ == mount_path@ + "/sources"@,
{
    join(mount_path, "/sources")
}

/// What an installation archive says of one of its images.
pub struct ImageSummary {
    pub name: String,
    pub version: Option<String>,
    pub architecture: Option<String>,
}

/// Version and architecture of an installation archive: those of its Windows release when
/// it names one, else those of its first image (its name when it gives no version, and
/// "Unknown" when it gives no architecture), else none.
pub fn wim_version_info(
    windows: Option<(String, String)>,
    first_image: Option<ImageSummary>,
) -> (r: Option<(String, String)>)
    ensures
        match windows {
            Some(w) => r == Some(w),
            None => match first_image {
                Some(img) => {
                    &&& r is Some
                    &&& r->Some_0.0@ == match img.version {
                        Some(v) => v@,
                        None => img.name@,
                    }
                    &&& r->Some_0.1@ == match img.architecture {
                        Some(a) => a@,
                        None => "Unknown"@,
                    }
                },
                None => r is None,
            },
        },
{
    match windows {
        Some(w) => Some(w),
        None => match first_image {
            Some(img) => {
                let version = match img.version {
                    Some(v) => v,
                    None => img.name,
                };
                let arch = match img.architecture {
                    Some(a) => a,
                    None => "Unknown".to_owned(),
                };
                Some((version, arch))
            },
            None => None,
        },
    }
}

} // verus!
