//! Font preferences of the graphical front end, and path expansion for settings.
use vstd::prelude::*;
use vstd::string::StringExecFns;

verus! {

/// Font family names to try, by script, each list in order of preference.
pub struct FontFamilies {
    pub chinese: Vec<String>,
    pub english: Vec<String>,
    pub fallback: Vec<String>,
}

/// Default families for Chinese text: Linux, then macOS, then Windows names.
pub open spec fn chinese_font_names() -> Seq<Seq<char>> {
    seq![
        "Source Han Sans SC"@,
        "Noto Sans CJK SC"@,
        "WenQuanYi Zen Hei"@,
        "PingFang SC"@,
        "Hiragino Sans GB"@,
        "Microsoft YaHei"@,
        "SimSun"@,
        "SimHei"@,
    ]
}

/// Default families for Latin text.
pub open spec fn english_font_names() -> Seq<Seq<char>> {
    seq![
        "Inter"@,
        "Segoe UI"@,
        "San Francisco"@,
        "Helvetica Neue"@,
        "Arial"@,
        "Liberation Sans"@,
        "DejaVu Sans"@,
    ]
}

/// Default families to fall back on.
pub open spec fn fallback_font_names() -> Seq<Seq<char>> {
    seq!["Noto Sans"@, "Liberation Sans"@, "DejaVu Sans"@, "Arial"@, "sans-serif"@]
}

impl FontFamilies {
    /// The three lists as names.
    pub open spec fn names(&self) -> (Seq<Seq<char>>, Seq<Seq<char>>, Seq<Seq<char>>) {
        (self.chinese.deep_view(), self.english.deep_view(), self.fallback.deep_view())
    }

    /// Every configured family, Chinese first, then English, then fallback.
    pub fn get_font_families(&self) -> (r: Vec<String>)
        ensures
            r.deep_view() == self.chinese.deep_view() + self.english.deep_view()
                + self.fallback.deep_view(),
    {
        let mut families: Vec<String> = Vec::new();
        extend_with(&mut families, &self.chinese);
        extend_with(&mut families, &self.english);
        extend_with(&mut families, &self.fallback);
        families
    }
}

impl Default for FontFamilies {
    fn default() -> (r: FontFamilies)
        ensures
            r.names() == (chinese_font_names(), english_font_names(), fallback_font_names()),
    {
        FontFamilies {
            chinese: default_chinese_fonts(),
            english: default_english_fonts(),
            fallback: default_fallback_fonts(),
        }
    }
}

/// Appends a copy of each of `items` to `out`.
fn extend_with(out: &mut Vec<String>, items: &Vec<String>)
    ensures
        final(out).deep_view() == old(out).deep_view() + items.deep_view(),
{
    let ghost start = out.deep_view();
    let mut i: usize = 0;
    while i < items.len()
        invariant
            i <= items@.len(),
            out.deep_view() == start + items.deep_view().subrange(0, i as int),
        decreases items@.len() - i,
    {
        let ghost before = out.deep_view();
        let item = items[i].clone();
        assert(item@ == items.deep_view()[i as int]);
        out.push(item);
        assert(out.deep_view() =~= before.push(item@));
        assert(items.deep_view().subrange(0, i + 1) =~= items.deep_view().subrange(0, i as int)
            + seq![items@[i as int]@]);
        assert(out.deep_view() =~= start + items.deep_view().subrange(0, i + 1));
        i = i + 1;
    }
    assert(items.deep_view().subrange(0, i as int) =~= items.deep_view());
}

/// A vector of the given names, in order.
fn names_vec(names: &[&str]) -> (r: Vec<String>)
    ensures
        r@.len() == names@.len(),
        forall|k: int| 0 <= k < names@.len() ==> #[trigger] r@[k]@ == names@[k]@,
{
    let mut r: Vec<String> = Vec::new();
    let mut i: usize = 0;
    while i < names.len()
        invariant
            i <= names@.len(),
            r@.len() == i,
            forall|k: int| 0 <= k < i ==> #[trigger] r@[k]@ == names@[k]@,
        decreases names@.len() - i,
    {
        r.push(names[i].to_owned());
        i = i + 1;
    }
    r
}

/// The default families for Chinese text.
pub fn default_chinese_fonts() -> (r: Vec<String>)
    ensures
        r.deep_view() == chinese_font_names(),
{
    let names = [
        "Source Han Sans SC",
        "Noto Sans CJK SC",
        "WenQuanYi Zen Hei",
        "PingFang SC",
        "Hiragino Sans GB",
        "Microsoft YaHei",
        "SimSun",
        "SimHei",
    ];
    let r = names_vec(&names);
    assert(r.deep_view() =~= chinese_font_names());
    r
}

/// The default families for Latin text.
pub fn default_english_fonts() -> (r: Vec<String>)
    ensures
        r.deep_view() == english_font_names(),
{
    let names = [
        "Inter",
        "Segoe UI",
        "San Francisco",
        "Helvetica Neue",
        "Arial",
        "Liberation Sans",
        "DejaVu Sans",
    ];
    let r = names_vec(&names);
    assert(r.deep_view() =~= english_font_names());
    r
}

/// The default families to fall back on.
pub fn default_fallback_fonts() -> (r: Vec<String>)
    ensures
        r.deep_view() == fallback_font_names(),
{
    let names = ["Noto Sans", "Liberation Sans", "DejaVu Sans", "Arial", "sans-serif"];
    let r = names_vec(&names);
    assert(r.deep_view() =~= fallback_font_names());
    r
}

/// The default font preferences.
pub fn default_font_families() -> (r: FontFamilies)
    ensures
        r.names() == (chinese_font_names(), english_font_names(), fallback_font_names()),
{
    FontFamilies::default()
}

#[verifier::external_type_specification]
#[verifier::external_body]
pub struct ExDatabase(fontdb::Database);

#[verifier::external_type_specification]
#[verifier::external_body]
pub struct ExFontId(fontdb::ID);

/// Relies on `fontdb::Database::new`: a database with no faces.
pub assume_specification[ fontdb::Database::new ]() -> fontdb::Database;

/// Relies on `fontdb::Database::load_system_fonts`: adds the faces found in the system's
/// font directories, whatever they hold.
pub assume_specification[ fontdb::Database::load_system_fonts ](db: &mut fontdb::Database);

/// Relies on `fontdb::Database::query`: the best face of the family named `name`, if the
/// database holds one.
#[verifier::external_body]
fn query_family(db: &fontdb::Database, name: &str) -> (r: Option<fontdb::ID>) {
    db.query(&fontdb::Query { families: &[fontdb::Family::Name(name)], ..Default::default() })
}

/// Relies on `fontdb::Database::face`: whether the database still holds the face `id`.
#[verifier::external_body]
fn has_face(db: &fontdb::Database, id: fontdb::ID) -> (r: bool) {
    db.face(id).is_some()
}

/// Relies on `fontdb::Database::with_face_data`: a copy of the font file's bytes behind the
/// face `id`, if they can be read.
#[verifier::external_body]
fn face_data(db: &fontdb::Database, id: fontdb::ID) -> (r: Option<Vec<u8>>) {
    db.with_face_data(id, |data, _face_index| data.to_vec())
}

/// The fonts installed on this system.
pub struct FontLoader {
    db: fontdb::Database,
}

impl Default for FontLoader {
    fn default() -> (r: FontLoader) {
        FontLoader::new()
    }
}

impl FontLoader {
    /// Loads the system's fonts.
    pub fn new() -> (r: FontLoader) {
        let mut db = fontdb::Database::new();
        db.load_system_fonts();
        FontLoader { db }
    }

    /// The font data of the family named `name`, if it is installed and readable.
    fn lookup(&self, name: &str) -> (r: Option<Vec<u8>>) {
        match query_family(&self.db, name) {
            Some(id) => if has_face(&self.db, id) {
                face_data(&self.db, id)
            } else {
                None
            },
            None => None,
        }
    }

    /// The data of the first family of `family_names`, in order, that is installed and
    /// readable; none for an empty list. The families are looked up in order, up to the
    /// first hit, and the outcomes are decided by [`first_font_data`].
    pub fn find_font_data(&self, family_names: &[String]) -> (r: Option<Vec<u8>>)
        ensures
            family_names@.len() == 0 ==> r is None,
    {
        let mut outcomes: Vec<Option<Vec<u8>>> = Vec::new();
        let mut i: usize = 0;
        while i < family_names.len()
            invariant
                i <= family_names@.len(),
                family_names@.len() == 0 ==> outcomes@.len() == 0,
            decreases family_names@.len() - i,
        {
            let found = self.lookup(family_names[i].as_str());
            let hit = found.is_some();
            outcomes.push(found);
            if hit {
                break;
            }
            i = i + 1;
        }
        first_font_data(outcomes)
    }
}

/// The first present entry of `outcomes`, in order.
pub open spec fn first_present(outcomes: Seq<Option<Vec<u8>>>) -> Option<Vec<u8>>
    decreases outcomes.len(),
{
    if outcomes.len() == 0 {
        None
    } else if outcomes[0] is Some {
        outcomes[0]
    } else {
        first_present(outcomes.drop_first())
    }
}

/// Given the outcome of each family's lookup, in order of preference, the data of the first
/// family that was found; none if none was.
pub fn first_font_data(outcomes: Vec<Option<Vec<u8>>>) -> (r: Option<Vec<u8>>)
    ensures
        r == first_present(outcomes@),
{
    let ghost all = outcomes@;
    let mut rest = outcomes;
    let mut result: Option<Vec<u8>> = None;
    assert(all.subrange(0, all.len() as int) =~= all);
    while rest.len() > 0
        invariant
            rest@.len() <= all.len(),
            rest@ == all.subrange(0, rest@.len() as int),
            result == first_present(all.subrange(rest@.len() as int, all.len() as int)),
        decreases rest@.len(),
    {
        let k = rest.len() - 1;
        assert(all.subrange(k as int, all.len() as int).drop_first() =~= all.subrange(
            k + 1,
            all.len() as int,
        ));
        let last = rest.pop();
        assert(last == Some(all[k as int]));
        match last {
            Some(Some(data)) => {
                result = Some(data);
            },
            _ => {},
        }
        assert(rest@ =~= all.subrange(0, k as int));
    }
    assert(all.subrange(0, all.len() as int) =~= all);
    result
}

/// The components of the settings file's path: under `$XDG_CONFIG_HOME` when it is set,
/// else under `$HOME/.config`; none when neither is set.
pub open spec fn config_path_parts(
    xdg_config_home: Option<Seq<char>>,
    home: Option<Seq<char>>,
) -> Option<Seq<Seq<char>>> {
    match xdg_config_home {
        Some(x) => Some(seq![x, "rust-study-examples"@, "config.toml"@]),
        None => match home {
            Some(h) => Some(seq![h, ".config"@, "rust-study-examples"@, "config.toml"@]),
            None => None,
        },
    }
}

/// The components, to be joined in order, of the settings file's path, given the values of
/// `XDG_CONFIG_HOME` and `HOME` (`None` when unset).
pub fn config_path(xdg_config_home: Option<String>, home: Option<String>) -> (r: Option<Vec<String>>)
    ensures
        match r {
            Some(v) => config_path_parts(
                match xdg_config_home {
                    Some(x) => Some(x@),
                    None => None,
                },
                match home {
                    Some(h) => Some(h@),
                    None => None,
                },
            ) == Some(v.deep_view()),
            None => xdg_config_home is None && home is None,
        },
{
    let mut parts: Vec<String> = Vec::new();
    match xdg_config_home {
        Some(x) => {
            parts.push(x);
        },
        None => match home {
            Some(h) => {
                parts.push(h);
                parts.push(".config".to_owned());
            },
            None => {
                return None;
            },
        },
    }
    let ghost base = parts.deep_view();
    parts.push("rust-study-examples".to_owned());
    parts.push("config.toml".to_owned());
    assert(parts.deep_view() =~= base + seq!["rust-study-examples"@, "config.toml"@]);
    Some(parts)
}

/// `path` with a leading `~/` expanded to `home`, when `home` is known.
pub open spec fn expanded_path(path: Seq<char>, home: Option<Seq<char>>) -> Seq<char> {
    if path.len() >= 2 && path[0] == '~' && path[1] == '/' && home is Some {
        home->Some_0 + path.subrange(1, path.len() as int)
    } else {
        path
    }
}

/// Expands a leading `~/` in `path` to the home directory `home` (`None` when unknown).
pub fn expand_tilde(path: &str, home: Option<&str>) -> (r: String)
    ensures
        r@ == expanded_path(
            path@,
            match home {
                Some(h) => Some(h@),
                None => None,
            },
        ),
{
    let len = path.unicode_len();
    if len >= 2 && path.get_char(0) == '~' && path.get_char(1) == '/' {
        match home {
            Some(h) => {
                return h.to_owned().concat(path.substring_char(1, len));
            },
            None => {},
        }
    }
    path.to_owned()
}

} // verus!
