//! The table collection, the error-message queue, and whole-collection
//! load/save over the structured text files.
//!
//! Callers read and write the files themselves and hand the contents in as
//! plain strings: a missing file is `None`, a present file is `Some` of its
//! text.  Every failure is reported through the first-in-first-out message
//! queue, never by a panic.

use vstd::prelude::*;
use crate::bean::{
    Relics, Element, Enemy, Localization, RaceAttribute, RelicsV, ElementV, EnemyV, LocalizationV,
    RaceAttributeV,
};
use crate::codec::{WireExec, WireSpec, views_of, parse_table_text, table_text, write_table,
    parse_table, lemma_table_roundtrip};

verus! {

/// First-in-first-out queue of human-readable error messages, consumed one
/// at a time for display.
pub struct MessageQueue {
    items: Vec<String>,
}

impl View for MessageQueue {
    type V = Seq<Seq<char>>;

    closed spec fn view(&self) -> Seq<Seq<char>> {
        self.items@.map_values(|m: String| m@)
    }
}

impl MessageQueue {
    /// A fresh, empty queue.
    pub fn new() -> (r: Self)
        ensures
            r@ == Seq::<Seq<char>>::empty(),
    {
        let q = MessageQueue { items: Vec::new() };
        proof {
            assert(q@ =~= Seq::<Seq<char>>::empty());
        }
        q
    }

    /// How many messages wait.
    pub fn len(&self) -> (n: usize)
        ensures
            n == self@.len(),
    {
        self.items.len()
    }

    /// Append a message at the back.
    pub fn push_back(&mut self, m: String)
        ensures
            final(self)@ == old(self)@.push(m@),
    {
        self.items.push(m);
        proof {
            assert(self@ =~= old(self)@.push(self.items@.last()@));
        }
    }

    /// Take the oldest message, if any: strictly first in, first out.
    pub fn pop_front(&mut self) -> (r: Option<String>)
        ensures
            old(self)@.len() == 0 ==> r is None && final(self)@ == old(self)@,
            old(self)@.len() > 0 ==> (r matches Some(m) && m@ == old(self)@[0] && final(self)@
                == old(self)@.drop_first()),
    {
        if self.items.len() == 0 {
            None
        } else {
            let m = self.items.remove(0);
            proof {
                assert(self@ =~= old(self)@.drop_first());
            }
            Some(m)
        }
    }
}

/// The five ordered entity collections of one workspace.
pub struct TableData {
    pub relics: Vec<Relics>,
    pub elements: Vec<Element>,
    pub enemies: Vec<Enemy>,
    pub l10n: Vec<Localization>,
    pub race_attributes: Vec<RaceAttribute>,
}

/// Mathematical value of a [`TableData`].
#[verifier::ext_equal]
pub ghost struct TableDataV {
    pub relics: Seq<RelicsV>,
    pub elements: Seq<ElementV>,
    pub enemies: Seq<EnemyV>,
    pub l10n: Seq<LocalizationV>,
    pub race_attributes: Seq<RaceAttributeV>,
}

impl View for TableData {
    type V = TableDataV;

    open spec fn view(&self) -> TableDataV {
        TableDataV {
            relics: views_of(self.relics@),
            elements: views_of(self.elements@),
            enemies: views_of(self.enemies@),
            l10n: views_of(self.l10n@),
            race_attributes: views_of(self.race_attributes@),
        }
    }
}

/// The all-empty collection value.
pub open spec fn empty_tables() -> TableDataV {
    TableDataV {
        relics: Seq::empty(),
        elements: Seq::empty(),
        enemies: Seq::empty(),
        l10n: Seq::empty(),
        race_attributes: Seq::empty(),
    }
}

impl Default for TableData {
    /// The collection starts empty.
    fn default() -> (r: Self)
        ensures
            r@ == empty_tables(),
    {
        let r = TableData {
            relics: Vec::new(),
            elements: Vec::new(),
            enemies: Vec::new(),
            l10n: Vec::new(),
            race_attributes: Vec::new(),
        };
        proof {
            assert(r@ =~= empty_tables());
        }
        r
    }
}

/// Reset every table to empty.
pub fn clear_data(data: &mut TableData)
    ensures
        final(data)@ == empty_tables(),
{
    *data = TableData::default();
}

/// The message appended when a table's text cannot be parsed.
pub open spec fn parse_error_text(label: Seq<char>) -> Seq<char> {
    label + ": malformed table text"@
}

/// Load one table from the text of its file, if the file existed.
///
/// A missing file leaves the table exactly as it was, with no message.  A
/// malformed text leaves the table as it was and appends one message.  A
/// well-formed text replaces the table's rows wholesale.
pub fn read_json<T: WireExec>(
    label: &str,
    text: Option<&str>,
    vec: &mut Vec<T>,
    messages: &mut MessageQueue,
) where <T as View>::V: WireSpec
    ensures
        text is None ==> final(vec)@ == old(vec)@ && final(messages)@ == old(messages)@,
        (match text {
            Some(t) => match parse_table_text::<<T as View>::V>(t@) {
                Some(rows) => views_of(final(vec)@) == rows && final(messages)@ == old(messages)@,
                None => final(vec)@ == old(vec)@ && final(messages)@ == old(messages)@.push(
                    parse_error_text(label@),
                ),
            },
            None => true,
        }),
{
    match text {
        None => {},
        Some(t) => {
            let cs = crate::text::chars_of(t);
            match parse_table::<T>(&cs) {
                Some(rows) => {
                    *vec = rows;
                },
                None => {
                    let mut msg = label.to_owned();
                    msg.append(": malformed table text");
                    messages.push_back(msg);
                },
            }
        },
    }
}

/// The file contents of the five per-table files, each present or missing.
pub struct TableFiles {
    pub elements: Option<String>,
    pub l10n: Option<String>,
    pub race_attributes: Option<String>,
    pub enemies: Option<String>,
    pub relics: Option<String>,
}

/// What one table's load contributes to the message queue.
pub open spec fn load_errs<V: WireSpec>(
    text: Option<Seq<char>>,
    label: Seq<char>,
) -> Seq<Seq<char>> {
    match text {
        Some(t) => if parse_table_text::<V>(t) is None {
            seq![parse_error_text(label)]
        } else {
            Seq::empty()
        },
        None => Seq::empty(),
    }
}

/// What one table holds after its load.
pub open spec fn loaded_rows<V: WireSpec>(text: Option<Seq<char>>, before: Seq<V>) -> Seq<V> {
    match text {
        Some(t) => match parse_table_text::<V>(t) {
            Some(rows) => rows,
            None => before,
        },
        None => before,
    }
}

/// The view of an optional file text.
pub open spec fn text_view(t: Option<&str>) -> Option<Seq<char>> {
    match t {
        Some(s) => Some(s@),
        None => None,
    }
}

/// Load all five tables from their file texts.
///
/// Each table is loaded independently: a missing file leaves that table
/// unchanged, a malformed file leaves that table unchanged and appends
/// exactly one message, and neither disturbs the other four tables.
#[verifier::spinoff_prover]
#[verifier::rlimit(100)]
pub fn read_data(files: &TableFiles, data: &mut TableData, messages: &mut MessageQueue)
    ensures
        final(data)@.elements == loaded_rows::<ElementV>(
            opt_view(&files.elements),
            old(data)@.elements,
        ),
        final(data)@.l10n == loaded_rows::<LocalizationV>(opt_view(&files.l10n), old(data)@.l10n),
        final(data)@.race_attributes == loaded_rows::<RaceAttributeV>(
            opt_view(&files.race_attributes),
            old(data)@.race_attributes,
        ),
        final(data)@.enemies == loaded_rows::<EnemyV>(opt_view(&files.enemies), old(data)@.enemies),
        final(data)@.relics == loaded_rows::<RelicsV>(opt_view(&files.relics), old(data)@.relics),
        final(messages)@ == old(messages)@ + load_errs::<ElementV>(
            opt_view(&files.elements),
            "element_mod.json"@,
        ) + load_errs::<LocalizationV>(opt_view(&files.l10n), "localization_mod.json"@)
            + load_errs::<RaceAttributeV>(
            opt_view(&files.race_attributes),
            "raceattribute_mod.json"@,
        ) + load_errs::<EnemyV>(opt_view(&files.enemies), "enemy_mod.json"@)
            + load_errs::<RelicsV>(opt_view(&files.relics), "relics_mod.json"@),
{
    read_json::<Element>(
        "element_mod.json",
        opt_str(&files.elements),
        &mut data.elements,
        messages,
    );
    read_json::<Localization>(
        "localization_mod.json",
        opt_str(&files.l10n),
        &mut data.l10n,
        messages,
    );
    read_json::<RaceAttribute>(
        "raceattribute_mod.json",
        opt_str(&files.race_attributes),
        &mut data.race_attributes,
        messages,
    );
    read_json::<Enemy>("enemy_mod.json", opt_str(&files.enemies), &mut data.enemies, messages);
    read_json::<Relics>("relics_mod.json", opt_str(&files.relics), &mut data.relics, messages);
    proof {
        assert(final(messages)@ =~= old(messages)@ + load_errs::<ElementV>(
            opt_view(&files.elements),
            "element_mod.json"@,
        ) + load_errs::<LocalizationV>(opt_view(&files.l10n), "localization_mod.json"@)
            + load_errs::<RaceAttributeV>(
            opt_view(&files.race_attributes),
            "raceattribute_mod.json"@,
        ) + load_errs::<EnemyV>(opt_view(&files.enemies), "enemy_mod.json"@)
            + load_errs::<RelicsV>(opt_view(&files.relics), "relics_mod.json"@));
    }
}

/// The view of an optional owned file text.
pub open spec fn opt_view(t: &Option<String>) -> Option<Seq<char>> {
    match t {
        Some(s) => Some(s@),
        None => None,
    }
}

/// Borrow an optional file text.
fn opt_str(t: &Option<String>) -> (r: Option<&str>)
    ensures
        text_view(r) == opt_view(t),
{
    match t {
        Some(s) => Some(s.as_str()),
        None => None,
    }
}

/// The serialized texts of the five tables, ready to be written to their
/// files.
pub struct TableTexts {
    pub elements: String,
    pub l10n: String,
    pub race_attributes: String,
    pub enemies: String,
    pub relics: String,
}

/// Serialize the whole collection to the five per-table file texts.
///
/// Serialization is total: writing the texts to disk, and reporting any
/// filesystem failure, is the caller's part.
pub fn save_data(data: &TableData) -> (r: TableTexts)
    ensures
        r.elements@ == table_text::<ElementV>(data@.elements),
        r.l10n@ == table_text::<LocalizationV>(data@.l10n),
        r.race_attributes@ == table_text::<RaceAttributeV>(data@.race_attributes),
        r.enemies@ == table_text::<EnemyV>(data@.enemies),
        r.relics@ == table_text::<RelicsV>(data@.relics),
{
    TableTexts {
        elements: crate::text::string_of(&write_table::<Element>(&data.elements)),
        l10n: crate::text::string_of(&write_table::<Localization>(&data.l10n)),
        race_attributes: crate::text::string_of(&write_table::<RaceAttribute>(
            &data.race_attributes,
        )),
        enemies: crate::text::string_of(&write_table::<Enemy>(&data.enemies)),
        relics: crate::text::string_of(&write_table::<Relics>(&data.relics)),
    }
}

/// Round trip of the whole collection: parsing each of the five saved table
/// texts yields exactly the rows that were saved, for every entity kind.
pub proof fn lemma_collection_roundtrip(td: TableDataV)
    ensures
        parse_table_text::<RelicsV>(table_text(td.relics)) == Some(td.relics),
        parse_table_text::<ElementV>(table_text(td.elements)) == Some(td.elements),
        parse_table_text::<EnemyV>(table_text(td.enemies)) == Some(td.enemies),
        parse_table_text::<LocalizationV>(table_text(td.l10n)) == Some(td.l10n),
        parse_table_text::<RaceAttributeV>(table_text(td.race_attributes)) == Some(
            td.race_attributes,
        ),
{
    lemma_table_roundtrip::<RelicsV>(td.relics);
    lemma_table_roundtrip::<ElementV>(td.elements);
    lemma_table_roundtrip::<EnemyV>(td.enemies);
    lemma_table_roundtrip::<LocalizationV>(td.l10n);
    lemma_table_roundtrip::<RaceAttributeV>(td.race_attributes);
}

/// The name of the data directory nested inside a workspace, as the
/// persistence layer resolves it.
pub fn data_dir_path(workspace: &str) -> (r: String)
    ensures
        r@ == workspace@ + "/Config/Config/Datas"@,
{
    let mut p = workspace.to_owned();
    p.append("/Config/Config/Datas");
    p
}


/// One record of any of the five tables.
pub enum TableEntry {
    Relic(Relics),
    Element(Element),
    Enemy(Enemy),
    L10n(Localization),
    RaceAttribute(RaceAttribute),
}

/// How many records the table shown on `page` holds.
pub open spec fn page_len(data: TableData, page: crate::page::Page) -> nat {
    match page {
        crate::page::Page::Relic => data.relics@.len(),
        crate::page::Page::Element => data.elements@.len(),
        crate::page::Page::Enemy => data.enemies@.len(),
        crate::page::Page::L10n => data.l10n@.len(),
        crate::page::Page::RaceAttribute => data.race_attributes@.len(),
    }
}

impl TableData {
    /// Append one record to its table, leaving the other four untouched.
    pub fn append(&mut self, e: TableEntry)
        ensures
            match e {
                TableEntry::Relic(r) => final(self).relics@ == old(self).relics@.push(r)
                    && final(self).elements@ == old(self).elements@ && final(self).enemies@ == old(self).enemies@ && final(self).l10n@ == old(self).l10n@ && final(self).race_attributes@ == old(self).race_attributes@,
                TableEntry::Element(r) => final(self).elements@ == old(self).elements@.push(r)
                    && final(self).relics@ == old(self).relics@ && final(self).enemies@ == old(self).enemies@ && final(self).l10n@ == old(self).l10n@ && final(self).race_attributes@ == old(self).race_attributes@,
                TableEntry::Enemy(r) => final(self).enemies@ == old(self).enemies@.push(r)
                    && final(self).relics@ == old(self).relics@ && final(self).elements@ == old(self).elements@ && final(self).l10n@ == old(self).l10n@ && final(self).race_attributes@ == old(self).race_attributes@,
                TableEntry::L10n(r) => final(self).l10n@ == old(self).l10n@.push(r) && final(self).relics@ == old(self).relics@ && final(self).elements@ == old(self).elements@
                    && final(self).enemies@ == old(self).enemies@ && final(self).race_attributes@ == old(self).race_attributes@,
                TableEntry::RaceAttribute(r) => final(self).race_attributes@ == old(self).race_attributes@.push(r) && final(self).relics@ == old(self).relics@ && final(self).elements@ == old(self).elements@ && final(self).enemies@ == old(self).enemies@
                    && final(self).l10n@ == old(self).l10n@,
            },
    {
        match e {
            TableEntry::Relic(r) => self.relics.push(r),
            TableEntry::Element(r) => self.elements.push(r),
            TableEntry::Enemy(r) => self.enemies.push(r),
            TableEntry::L10n(r) => self.l10n.push(r),
            TableEntry::RaceAttribute(r) => self.race_attributes.push(r),
        }
    }

    /// Remove the record at `index` from the table shown on `page`.
    ///
    /// The index must be valid for that table: an out-of-range index is a
    /// caller error, not a recoverable condition.
    pub fn remove(&mut self, page: &crate::page::Page, index: usize)
        requires
            index < page_len(*old(self), *page),
        ensures
            match *page {
                crate::page::Page::Relic => final(self).relics@ == old(self).relics@.remove(
                    index as int,
                ) && final(self).elements@ == old(self).elements@ && final(self).enemies@ == old(self).enemies@ && final(self).l10n@ == old(self).l10n@ && final(self).race_attributes@ == old(self).race_attributes@,
                crate::page::Page::Element => final(self).elements@ == old(self).elements@.remove(
                    index as int,
                ) && final(self).relics@ == old(self).relics@ && final(self).enemies@ == old(self).enemies@ && final(self).l10n@ == old(self).l10n@ && final(self).race_attributes@ == old(self).race_attributes@,
                crate::page::Page::Enemy => final(self).enemies@ == old(self).enemies@.remove(
                    index as int,
                ) && final(self).relics@ == old(self).relics@ && final(self).elements@ == old(self).elements@ && final(self).l10n@ == old(self).l10n@ && final(self).race_attributes@ == old(self).race_attributes@,
                crate::page::Page::L10n => final(self).l10n@ == old(self).l10n@.remove(
                    index as int,
                ) && final(self).relics@ == old(self).relics@ && final(self).elements@ == old(self).elements@ && final(self).enemies@ == old(self).enemies@ && final(self).race_attributes@ == old(self).race_attributes@,
                crate::page::Page::RaceAttribute => final(self).race_attributes@ == old(self).race_attributes@.remove(index as int) && final(self).relics@ == old(self).relics@ && final(self).elements@ == old(self).elements@ && final(self).enemies@
                    == old(self).enemies@ && final(self).l10n@ == old(self).l10n@,
            },
    {
        match page {
            crate::page::Page::Relic => {
                let _ = self.relics.remove(index);
            },
            crate::page::Page::Element => {
                let _ = self.elements.remove(index);
            },
            crate::page::Page::Enemy => {
                let _ = self.enemies.remove(index);
            },
            crate::page::Page::L10n => {
                let _ = self.l10n.remove(index);
            },
            crate::page::Page::RaceAttribute => {
                let _ = self.race_attributes.remove(index);
            },
        }
    }

    /// Stable-sort the table shown on `page` by identifier, leaving the
    /// other four untouched.
    pub fn sort(&mut self, page: &crate::page::Page)
        ensures
            match *page {
                crate::page::Page::Relic => crate::sorting::sorted_by_id(final(self).relics@)
                    && (forall|k: int| #[trigger] crate::sorting::with_id(final(self).relics@, k)
                    == crate::sorting::with_id(old(self).relics@, k)) && final(self).elements@
                    == old(self).elements@ && final(self).enemies@ == old(self).enemies@ && final(self).l10n@ == old(self).l10n@ && final(self).race_attributes@ == old(self).race_attributes@,
                crate::page::Page::Element => crate::sorting::sorted_by_id(final(self).elements@)
                    && (forall|k: int| #[trigger] crate::sorting::with_id(
                    final(self).elements@,
                    k,
                ) == crate::sorting::with_id(old(self).elements@, k)) && final(self).relics@
                    == old(self).relics@ && final(self).enemies@ == old(self).enemies@ && final(self).l10n@ == old(self).l10n@ && final(self).race_attributes@ == old(self).race_attributes@,
                crate::page::Page::Enemy => crate::sorting::sorted_by_id(final(self).enemies@)
                    && (forall|k: int| #[trigger] crate::sorting::with_id(final(self).enemies@, k)
                    == crate::sorting::with_id(old(self).enemies@, k)) && final(self).relics@
                    == old(self).relics@ && final(self).elements@ == old(self).elements@ && final(self).l10n@ == old(self).l10n@ && final(self).race_attributes@ == old(self).race_attributes@,
                crate::page::Page::L10n => crate::sorting::sorted_by_id(final(self).l10n@) && (
                forall|k: int| #[trigger] crate::sorting::with_id(final(self).l10n@, k)
                    == crate::sorting::with_id(old(self).l10n@, k)) && final(self).relics@ == old(self).relics@ && final(self).elements@ == old(self).elements@ && final(self).enemies@
                    == old(self).enemies@ && final(self).race_attributes@ == old(self).race_attributes@,
                crate::page::Page::RaceAttribute => crate::sorting::sorted_by_id(
                    final(self).race_attributes@,
                ) && (forall|k: int| #[trigger] crate::sorting::with_id(
                    final(self).race_attributes@,
                    k,
                ) == crate::sorting::with_id(old(self).race_attributes@, k)) && final(self).relics@
                    == old(self).relics@ && final(self).elements@ == old(self).elements@ && final(self).enemies@ == old(self).enemies@ && final(self).l10n@ == old(self).l10n@,
            },
    {
        match page {
            crate::page::Page::Relic => crate::sorting::sort_by_id(&mut self.relics),
            crate::page::Page::Element => crate::sorting::sort_by_id(&mut self.elements),
            crate::page::Page::Enemy => crate::sorting::sort_by_id(&mut self.enemies),
            crate::page::Page::L10n => crate::sorting::sort_by_id(&mut self.l10n),
            crate::page::Page::RaceAttribute => crate::sorting::sort_by_id(&mut self.race_attributes),
        }
    }
}


/// One where there is one: a present file's text either parses or
/// contributes exactly one message.
pub open spec fn err_count<V: WireSpec>(text: Option<Seq<char>>, label: Seq<char>) -> nat {
    load_errs::<V>(text, label).len()
}

/// Load failure isolation: across any five file texts, the queue gains one
/// message per malformed present file and nothing else, and every
/// well-formed present file still loads its rows.  In particular, when
/// exactly one of the five files is malformed, the other four load and the
/// queue gains exactly one message.
pub proof fn lemma_load_failure_isolation(
    te: Option<Seq<char>>,
    tl: Option<Seq<char>>,
    tr: Option<Seq<char>>,
    tn: Option<Seq<char>>,
    tc: Option<Seq<char>>,
    before: TableDataV,
)
    ensures
        (load_errs::<ElementV>(te, "element_mod.json"@) + load_errs::<LocalizationV>(
            tl,
            "localization_mod.json"@,
        ) + load_errs::<RaceAttributeV>(tr, "raceattribute_mod.json"@) + load_errs::<EnemyV>(
            tn,
            "enemy_mod.json"@,
        ) + load_errs::<RelicsV>(tc, "relics_mod.json"@)).len() == err_count::<ElementV>(
            te,
            "element_mod.json"@,
        ) + err_count::<LocalizationV>(tl, "localization_mod.json"@) + err_count::<RaceAttributeV>(
            tr,
            "raceattribute_mod.json"@,
        ) + err_count::<EnemyV>(tn, "enemy_mod.json"@) + err_count::<RelicsV>(
            tc,
            "relics_mod.json"@,
        ),
        forall|t: Seq<char>, rows: Seq<ElementV>|
            te == Some(t) && parse_table_text::<ElementV>(t) == Some(rows) ==> loaded_rows::<
                ElementV,
            >(te, before.elements) == rows && err_count::<ElementV>(te, "element_mod.json"@) == 0,
        forall|t: Seq<char>, rows: Seq<LocalizationV>|
            tl == Some(t) && parse_table_text::<LocalizationV>(t) == Some(rows) ==> loaded_rows::<
                LocalizationV,
            >(tl, before.l10n) == rows && err_count::<LocalizationV>(
                tl,
                "localization_mod.json"@,
            ) == 0,
        forall|t: Seq<char>, rows: Seq<RaceAttributeV>|
            tr == Some(t) && parse_table_text::<RaceAttributeV>(t) == Some(rows) ==> loaded_rows::<
                RaceAttributeV,
            >(tr, before.race_attributes) == rows && err_count::<RaceAttributeV>(
                tr,
                "raceattribute_mod.json"@,
            ) == 0,
        forall|t: Seq<char>, rows: Seq<EnemyV>|
            tn == Some(t) && parse_table_text::<EnemyV>(t) == Some(rows) ==> loaded_rows::<EnemyV>(
                tn,
                before.enemies,
            ) == rows && err_count::<EnemyV>(tn, "enemy_mod.json"@) == 0,
        forall|t: Seq<char>, rows: Seq<RelicsV>|
            tc == Some(t) && parse_table_text::<RelicsV>(t) == Some(rows) ==> loaded_rows::<
                RelicsV,
            >(tc, before.relics) == rows && err_count::<RelicsV>(tc, "relics_mod.json"@) == 0,
        forall|t: Seq<char>|
            te == Some(t) && parse_table_text::<ElementV>(t) is None ==> loaded_rows::<ElementV>(
                te,
                before.elements,
            ) == before.elements && err_count::<ElementV>(te, "element_mod.json"@) == 1,
        forall|t: Seq<char>|
            tl == Some(t) && parse_table_text::<LocalizationV>(t) is None ==> loaded_rows::<
                LocalizationV,
            >(tl, before.l10n) == before.l10n && err_count::<LocalizationV>(
                tl,
                "localization_mod.json"@,
            ) == 1,
        forall|t: Seq<char>|
            tr == Some(t) && parse_table_text::<RaceAttributeV>(t) is None ==> loaded_rows::<
                RaceAttributeV,
            >(tr, before.race_attributes) == before.race_attributes && err_count::<RaceAttributeV>(
                tr,
                "raceattribute_mod.json"@,
            ) == 1,
        forall|t: Seq<char>|
            tn == Some(t) && parse_table_text::<EnemyV>(t) is None ==> loaded_rows::<EnemyV>(
                tn,
                before.enemies,
            ) == before.enemies && err_count::<EnemyV>(tn, "enemy_mod.json"@) == 1,
        forall|t: Seq<char>|
            tc == Some(t) && parse_table_text::<RelicsV>(t) is None ==> loaded_rows::<RelicsV>(
                tc,
                before.relics,
            ) == before.relics && err_count::<RelicsV>(tc, "relics_mod.json"@) == 1,
{
}

} // verus!
