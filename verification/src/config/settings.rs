//! The editor's settings as a whole.

use vstd::prelude::*;
use crate::lexers::Language;
use crate::themes::Theme;
use super::directories::Directories;
use super::editor_config::EditorConfig;
use super::scroll_config::ScrollConfig;

verus! {

/// File extensions and the languages they are highlighted as. No extension
/// occurs twice.
#[derive(Clone, Debug)]
pub struct LanguageMapping {
    entries: Vec<(String, Language)>,
}

/// The map that a list of pairs with distinct keys stands for.
pub open spec fn map_of(entries: Seq<(Seq<char>, Language)>) -> Map<Seq<char>, Language>
    decreases entries.len(),
{
    if entries.len() == 0 {
        Map::empty()
    } else {
        map_of(entries.drop_last()).insert(entries.last().0, entries.last().1)
    }
}

pub open spec fn distinct_keys(entries: Seq<(Seq<char>, Language)>) -> bool {
    forall|i: int, j: int|
        0 <= i < entries.len() && 0 <= j < entries.len() && i != j ==> entries[i].0 != entries[j].0
}

pub proof fn lemma_map_of(entries: Seq<(Seq<char>, Language)>)
    requires
        distinct_keys(entries),
    ensures
        forall|k: Seq<char>|
            map_of(entries).contains_key(k) <==> exists|i: int| 0 <= i < entries.len() && entries[i].0 == k,
        forall|i: int| 0 <= i < entries.len() ==> map_of(entries)[#[trigger] entries[i].0] == entries[i].1,
        map_of(entries).dom().finite(),
        map_of(entries).dom().len() == entries.len(),
    decreases entries.len(),
{
    if entries.len() > 0 {
        let p = entries.drop_last();
        assert(distinct_keys(p));
        lemma_map_of(p);
        let last = entries.last();
        assert(!map_of(p).contains_key(last.0)) by {
            if map_of(p).contains_key(last.0) {
                let i = choose|i: int| 0 <= i < p.len() && p[i].0 == last.0;
                assert(entries[i].0 == entries[entries.len() - 1].0);
            }
        }
        assert forall|k: Seq<char>|
            map_of(entries).contains_key(k) <==> exists|i: int| 0 <= i < entries.len() && entries[i].0 == k by {
            if map_of(entries).contains_key(k) && k != last.0 {
                let i = choose|i: int| 0 <= i < p.len() && p[i].0 == k;
                assert(entries[i].0 == k);
            }
            if exists|i: int| 0 <= i < entries.len() && entries[i].0 == k {
                let i = choose|i: int| 0 <= i < entries.len() && entries[i].0 == k;
                if i < entries.len() - 1 {
                    assert(p[i].0 == k);
                }
            }
        }
        assert forall|i: int| 0 <= i < entries.len() implies map_of(entries)[#[trigger] entries[i].0] == entries[i].1 by {
            if i < entries.len() - 1 {
                assert(p[i] == entries[i]);
                assert(entries[i].0 != last.0);
            }
        }
    }
}

/// A mapping read after a write (`insert`, then `get`) gives what was
/// written for that extension, and what it gave before for every other one.
pub proof fn law_get_after_insert(
    before: LanguageMapping,
    after: LanguageMapping,
    key: Seq<char>,
    language: Language,
    other: Seq<char>,
)
    requires
        after.as_map() == before.as_map().insert(key, language),
        other != key,
    ensures
        after.as_map().contains_key(key),
        after.as_map()[key] == language,
        after.as_map().contains_key(other) == before.as_map().contains_key(other),
        before.as_map().contains_key(other) ==> after.as_map()[other] == before.as_map()[other],
{
}

impl LanguageMapping {
    pub closed spec fn entries(&self) -> Seq<(Seq<char>, Language)> {
        self.entries@.map_values(|e: (String, Language)| (e.0@, e.1))
    }

    pub closed spec fn wf(&self) -> bool {
        distinct_keys(self.entries())
    }

    /// The mapping as a map from extension to language.
    pub open spec fn as_map(&self) -> Map<Seq<char>, Language> {
        map_of(self.entries())
    }

    pub fn new() -> (r: Self)
        ensures
            r.wf(),
            r.as_map() == Map::<Seq<char>, Language>::empty(),
            r.entries().len() == 0,
    {
        let r = LanguageMapping { entries: Vec::new() };
        assert(r.entries() =~= Seq::<(Seq<char>, Language)>::empty());
        r
    }

    /// The position of `key` among the entries.
    fn find(&self, key: &String) -> (r: Option<usize>)
        ensures
            match r {
                Some(i) => i < self.entries().len() && self.entries()[i as int].0 == key@,
                None => forall|i: int| 0 <= i < self.entries().len() ==> self.entries()[i].0 != key@,
            },
    {
        let mut i: usize = 0;
        while i < self.entries.len()
            invariant
                0 <= i <= self.entries@.len(),
                forall|j: int| 0 <= j < i ==> self.entries()[j].0 != key@,
            decreases self.entries@.len() - i,
        {
            if self.entries[i].0 == *key {
                return Some(i);
            }
            i = i + 1;
        }
        None
    }

    /// Maps `key` to `language`, in place of what it was mapped to.
    pub fn insert(&mut self, key: String, language: Language)
        requires
            old(self).wf(),
        ensures
            final(self).wf(),
            final(self).as_map() == old(self).as_map().insert(key@, language),
    {
        let ghost old_entries = self.entries();
        proof {
            lemma_map_of(old_entries);
        }
        match self.find(&key) {
            Some(i) => {
                self.entries.set(i, (key, language));
                proof {
                    let e = self.entries();
                    assert(e =~= old_entries.update(i as int, (key@, language)));
                    assert(distinct_keys(e)) by {
                        assert forall|a: int, b: int|
                            0 <= a < e.len() && 0 <= b < e.len() && a != b implies e[a].0 != e[b].0 by {
                            if a != i && b != i {
                                assert(e[a] == old_entries[a] && e[b] == old_entries[b]);
                            } else if a == i {
                                assert(e[b] == old_entries[b]);
                            } else {
                                assert(e[a] == old_entries[a]);
                            }
                        }
                    }
                    lemma_map_of(e);
                    assert(map_of(e) =~= map_of(old_entries).insert(key@, language)) by {
                        assert forall|k: Seq<char>| #[trigger] map_of(e).contains_key(k) <==> map_of(old_entries).insert(key@, language).contains_key(k) by {
                            if map_of(e).contains_key(k) {
                                let j = choose|j: int| 0 <= j < e.len() && e[j].0 == k;
                                if j != i {
                                    assert(old_entries[j].0 == k);
                                }
                            }
                            if map_of(old_entries).contains_key(k) {
                                let j = choose|j: int| 0 <= j < old_entries.len() && old_entries[j].0 == k;
                                if j != i {
                                    assert(e[j].0 == k);
                                } else {
                                    assert(e[i as int].0 == k);
                                }
                            }
                            if k == key@ {
                                assert(e[i as int].0 == k);
                            }
                        }
                        assert forall|k: Seq<char>| #[trigger] map_of(e).contains_key(k) implies map_of(e)[k] == map_of(old_entries).insert(key@, language)[k] by {
                            let j = choose|j: int| 0 <= j < e.len() && e[j].0 == k;
                            if j != i {
                                assert(old_entries[j] == e[j]);
                                assert(map_of(old_entries)[old_entries[j].0] == old_entries[j].1);
                            }
                            assert(map_of(e)[e[j].0] == e[j].1);
                        }
                    }
                }
            },
            None => {
                let ghost k = key@;
                self.entries.push((key, language));
                proof {
                    let e = self.entries();
                    assert(e =~= old_entries.push((k, language)));
                    assert(e.drop_last() =~= old_entries);
                    assert(distinct_keys(e)) by {
                        assert forall|a: int, b: int|
                            0 <= a < e.len() && 0 <= b < e.len() && a != b implies e[a].0 != e[b].0 by {
                            if a < old_entries.len() && b < old_entries.len() {
                                assert(e[a] == old_entries[a] && e[b] == old_entries[b]);
                            } else if a < old_entries.len() {
                                assert(e[a] == old_entries[a]);
                            } else {
                                assert(e[b] == old_entries[b]);
                            }
                        }
                    }
                }
            },
        }
    }

    /// The language that `key` is mapped to, if any.
    pub fn get(&self, key: &str) -> (r: Option<Language>)
        requires
            self.wf(),
        ensures
            r == (if self.as_map().contains_key(key@) {
                Some(self.as_map()[key@])
            } else {
                None
            }),
    {
        proof {
            lemma_map_of(self.entries());
        }
        let k = key.to_owned();
        match self.find(&k) {
            Some(i) => Some(self.entries[i].1),
            None => None,
        }
    }

    /// The extensions, each once.
    pub fn keys(&self) -> (r: Vec<String>)
        requires
            self.wf(),
        ensures
            r@.len() == self.as_map().dom().len(),
            forall|i: int| 0 <= i < r@.len() ==> self.as_map().contains_key(#[trigger] r@[i]@),
            forall|k: Seq<char>| self.as_map().contains_key(k) ==> exists|i: int| 0 <= i < r@.len() && r@[i]@ == k,
            forall|i: int| 0 <= i < r@.len() ==> #[trigger] r@[i]@ == self.entries()[i].0,
    {
        proof {
            lemma_map_of(self.entries());
        }
        let mut out: Vec<String> = Vec::new();
        let mut i: usize = 0;
        while i < self.entries.len()
            invariant
                0 <= i <= self.entries@.len(),
                out@.len() == i,
                forall|j: int| 0 <= j < i ==> out@[j]@ == self.entries()[j].0,
            decreases self.entries@.len() - i,
        {
            out.push(self.entries[i].0.clone());
            i = i + 1;
        }
        proof {
            assert forall|i: int| 0 <= i < out@.len() implies self.as_map().contains_key(#[trigger] out@[i]@) by {
                assert(out@[i]@ == self.entries()[i].0);
            }
            assert forall|k: Seq<char>| self.as_map().contains_key(k) implies exists|i: int| 0 <= i < out@.len() && out@[i]@ == k by {
                let j = choose|j: int| 0 <= j < self.entries().len() && self.entries()[j].0 == k;
                assert(out@[j]@ == k);
            }
        }
        out
    }

    /// The language of each extension, in the order of `keys`.
    pub fn values(&self) -> (r: Vec<Language>)
        requires
            self.wf(),
        ensures
            r@.len() == self.as_map().dom().len(),
            forall|i: int| 0 <= i < r@.len() ==> self.as_map().contains_key(#[trigger] self.entries()[i].0),
            forall|i: int| 0 <= i < r@.len() ==> #[trigger] r@[i] == self.as_map()[self.entries()[i].0],
    {
        proof {
            lemma_map_of(self.entries());
        }
        let mut out: Vec<Language> = Vec::new();
        let mut i: usize = 0;
        while i < self.entries.len()
            invariant
                0 <= i <= self.entries@.len(),
                out@.len() == i,
                forall|j: int| 0 <= j < i ==> out@[j] == self.entries()[j].1,
            decreases self.entries@.len() - i,
        {
            out.push(self.entries[i].1);
            i = i + 1;
        }
        out
    }
}

/// All the editor's settings.
#[derive(Clone, Debug)]
pub struct Config {
    pub width: u32,
    pub height: u32,
    pub menu_height: u16,
    pub editor_config: EditorConfig,
    pub theme: Theme,
    pub extensions_mapping: LanguageMapping,
    pub scroll: ScrollConfig,
    pub directories: Directories,
}

/// The extensions the editor knows: `.` and `txt` as plain text, `rs` as
/// Rust, `toml` as TOML.
pub open spec fn default_mapping() -> Map<Seq<char>, Language> {
    Map::empty().insert("."@, Language::PlainText).insert("txt"@, Language::PlainText).insert(
        "rs"@,
        Language::Rust,
    ).insert("toml"@, Language::Toml)
}

impl Config {
    pub open spec fn wf(&self) -> bool {
        self.extensions_mapping.wf()
    }

    /// A 1024 by 860 window with a 40 high menu, the default editor settings
    /// and theme, the default extensions, and the default scroll bars, with
    /// the platform's directories.
    pub fn new() -> (r: Self)
        ensures
            r.wf(),
            r.width == 1024,
            r.height == 860,
            r.menu_height == 40,
            r.editor_config.is_default_in(r.directories),
            r.theme.is_default(),
            r.extensions_mapping.as_map() == default_mapping(),
            r.scroll == ScrollConfig::new_spec(),
            exists|c: Seq<char>, p: Seq<char>| r.directories.under(c, p),
    {
        let directories = Directories::new(None, None);
        let ghost (c, p) = choose|c: Seq<char>, p: Seq<char>| directories.under(c, p);
        let editor_config = EditorConfig::new(&directories);
        let mut extensions_mapping = LanguageMapping::new();
        extensions_mapping.insert(".".to_owned(), Language::PlainText);
        extensions_mapping.insert("txt".to_owned(), Language::PlainText);
        extensions_mapping.insert("rs".to_owned(), Language::Rust);
        extensions_mapping.insert("toml".to_owned(), Language::Toml);
        let r = Self {
            width: 1024,
            height: 860,
            menu_height: 40,
            theme: Theme::default(),
            editor_config,
            extensions_mapping,
            scroll: ScrollConfig::new(),
            directories,
        };
        assert(r.directories.under(c, p));
        r
    }

    pub fn width(&self) -> (r: u32)
        ensures
            r == self.width,
    {
        self.width
    }

    pub fn set_width(&mut self, w: u32)
        ensures
            final(self).width == w,
            *final(self) == (Config { width: w, ..*old(self) }),
    {
        self.width = w;
    }

    pub fn height(&self) -> (r: u32)
        ensures
            r == self.height,
    {
        self.height
    }

    pub fn set_height(&mut self, h: u32)
        ensures
            final(self).height == h,
            *final(self) == (Config { height: h, ..*old(self) }),
    {
        self.height = h;
    }

    pub fn editor_config(&self) -> (r: &EditorConfig)
        ensures
            *r == self.editor_config,
    {
        &self.editor_config
    }

    pub fn theme(&self) -> (r: &Theme)
        ensures
            *r == self.theme,
    {
        &self.theme
    }

    /// Puts `theme` in place of the current theme.
    pub fn set_theme(&mut self, theme: Theme)
        ensures
            *final(self) == (Config { theme, ..*old(self) }),
    {
        self.theme = theme;
    }

    pub fn menu_height(&self) -> (r: u16)
        ensures
            r == self.menu_height,
    {
        self.menu_height
    }

    /// The text area starts below the menu and its top margin.
    pub fn editor_top_margin(&self) -> (r: i32)
        ensures
            r == self.menu_height + self.editor_config.margin_top,
    {
        self.menu_height as i32 + self.editor_config.margin_top as i32
    }

    pub fn editor_left_margin(&self) -> (r: i32)
        ensures
            r == self.editor_config.margin_left,
    {
        self.editor_config.margin_left as i32
    }

    pub fn extensions_mapping(&self) -> (r: &LanguageMapping)
        ensures
            *r == self.extensions_mapping,
    {
        &self.extensions_mapping
    }

    pub fn scroll(&self) -> (r: &ScrollConfig)
        ensures
            *r == self.scroll,
    {
        &self.scroll
    }

    pub fn scroll_mut(&mut self) -> (r: &mut ScrollConfig)
        ensures
            *r == old(self).scroll,
            *final(self) == (Config { scroll: *final(r), ..*old(self) }),
    {
        &mut self.scroll
    }

    pub fn directories(&self) -> (r: &Directories)
        ensures
            *r == self.directories,
    {
        &self.directories
    }
}

impl ScrollConfig {
    pub open spec fn new_spec() -> ScrollConfig {
        ScrollConfig { width: 4, margin_right: 5, speed: 30 }
    }
}

} // verus!
