use vstd::prelude::*;

verus! {

/// TOML documents are parsed, queried, edited and rendered by `toml_edit`.
#[verifier::external_type_specification]
#[verifier::external_body]
pub struct ExDocumentMut(toml_edit::DocumentMut);

/// One step in the life of a document: parsed from text, then edited.
pub enum TomlEdit {
    Parsed(Seq<char>),
    NewTable(Seq<char>),
    SetText(Seq<char>, Seq<char>, Seq<char>),
    SetInteger(Seq<char>, Seq<char>, i64),
}

/// What `toml_edit` finds under a key, as far as this library reads it.
pub enum TomlValue {
    Absent,
    Text(Seq<char>),
    Integer(i64),
    Float(u64),
    Table,
    Other,
}

/// The executable counterpart of [`TomlValue`].
#[derive(Debug)]
pub enum TomlEntry {
    Absent,
    Text(String),
    Integer(i64),
    /// An `f64` value, by its bit pattern.
    Float(u64),
    Table,
    Other,
}

impl View for TomlEntry {
    type V = TomlValue;

    open spec fn view(&self) -> TomlValue {
        match self {
            TomlEntry::Absent => TomlValue::Absent,
            TomlEntry::Text(s) => TomlValue::Text(s@),
            TomlEntry::Integer(n) => TomlValue::Integer(*n),
            TomlEntry::Float(b) => TomlValue::Float(*b),
            TomlEntry::Table => TomlValue::Table,
            TomlEntry::Other => TomlValue::Other,
        }
    }
}

/// The error `toml_edit` reports for `text`, or `None` when `text` parses.
pub uninterp spec fn toml_parse_error(text: Seq<char>) -> Option<Seq<char>>;

/// What `toml_edit` finds in a document at `key` of the top-level table
/// (`table` is `None`) or of the named top-level table.
pub uninterp spec fn toml_lookup(doc: Seq<TomlEdit>, table: Option<Seq<char>>, key: Seq<char>) -> TomlValue;

/// The keys of the top-level table, in document order (`Table::iter`).
pub uninterp spec fn toml_top_keys(doc: Seq<TomlEdit>) -> Seq<Seq<char>>;

/// How many tables the array of tables under a top-level key holds
/// (`ArrayOfTables::iter`), or `None` when the item there is no array of tables.
pub uninterp spec fn toml_row_count(doc: Seq<TomlEdit>, key: Seq<char>) -> Option<usize>;

/// The keys of the `index`-th table of the array of tables under `key`, in
/// document order.
pub uninterp spec fn toml_row_keys(doc: Seq<TomlEdit>, key: Seq<char>, index: int) -> Seq<Seq<char>>;

/// What the `index`-th table of the array of tables under `key` holds at `field`.
pub uninterp spec fn toml_row_lookup(doc: Seq<TomlEdit>, key: Seq<char>, index: int, field: Seq<char>) -> TomlValue;

/// The text `toml_edit` writes for a document.
pub uninterp spec fn toml_render(doc: Seq<TomlEdit>) -> Seq<char>;

/// A `toml_edit` document together with the record of how it came about.
pub struct TomlDoc {
    doc: toml_edit::DocumentMut,
    history: Ghost<Seq<TomlEdit>>,
}

impl View for TomlDoc {
    type V = Seq<TomlEdit>;

    closed spec fn view(&self) -> Seq<TomlEdit> {
        self.history@
    }
}

impl TomlDoc {
    /// Parses `text` with `DocumentMut::from_str`; the error is the parser's
    /// message (its `Display` text). Nothing is claimed about which texts parse.
    #[verifier::external_body]
    pub(crate) fn parse(text: &str) -> (result: Result<TomlDoc, String>)
        ensures
            match result {
                Ok(doc) => toml_parse_error(text@) is None && doc@ == seq![TomlEdit::Parsed(text@)],
                Err(message) => toml_parse_error(text@) == Some(message@),
            },
    {
        match text.parse::<toml_edit::DocumentMut>() {
            Ok(doc) => Ok(TomlDoc { doc, history: Ghost(seq![TomlEdit::Parsed(text@)]) }),
            Err(error) => Err(error.to_string()),
        }
    }

    /// Looks up `key` (in the top-level table `table`, or at the top level)
    /// with `Table::get`/`Item::get`, and reports a string (`as_str`), an
    /// integer (`as_integer`), a table (`is_table`), another item, or nothing.
    #[verifier::external_body]
    pub(crate) fn lookup(&self, table: Option<&str>, key: &str) -> (entry: TomlEntry)
        ensures
            entry@ == toml_lookup(self@, match table { Some(t) => Some(t@), None => None }, key@),
    {
        let item = match table {
            None => self.doc.get(key),
            Some(t) => self.doc.get(t).and_then(|section| section.get(key)),
        };
        match item {
            None => TomlEntry::Absent,
            Some(toml_edit::Item::Value(toml_edit::Value::String(s))) => TomlEntry::Text(s.value().clone()),
            Some(toml_edit::Item::Value(toml_edit::Value::Integer(n))) => TomlEntry::Integer(*n.value()),
            Some(toml_edit::Item::Value(toml_edit::Value::Float(f))) => TomlEntry::Float(f.value().to_bits()),
            Some(toml_edit::Item::Table(_)) => TomlEntry::Table,
            Some(_) => TomlEntry::Other,
        }
    }

    /// The keys of the top-level table, in document order (`Table::iter`).
    #[verifier::external_body]
    pub(crate) fn top_keys(&self) -> (keys: Vec<String>)
        ensures
            keys@.map_values(|k: String| k@) == toml_top_keys(self@),
    {
        self.doc.iter().map(|(key, _)| key.to_string()).collect()
    }

    /// The number of tables in the array of tables under `key`
    /// (`Item::as_array_of_tables`, counted by `ArrayOfTables::iter`).
    #[verifier::external_body]
    pub(crate) fn row_count(&self, key: &str) -> (count: Option<usize>)
        ensures
            count == toml_row_count(self@, key@),
    {
        self.doc.get(key).and_then(|item| item.as_array_of_tables()).map(|rows| rows.iter().count())
    }

    /// The keys of the `index`-th table under `key`, in document order.
    #[verifier::external_body]
    pub(crate) fn row_keys(&self, key: &str, index: usize) -> (keys: Vec<String>)
        requires
            toml_row_count(self@, key@) matches Some(n) && index < n,
        ensures
            keys@.map_values(|k: String| k@) == toml_row_keys(self@, key@, index as int),
    {
        let rows = self.doc.get(key).and_then(|item| item.as_array_of_tables());
        let row = rows.and_then(|rows| rows.iter().nth(index));
        row.into_iter().flat_map(|table| table.iter()).map(|(k, _)| k.to_string()).collect()
    }

    /// What the `index`-th table under `key` holds at `field` (`Table::get`),
    /// read as in [`TomlDoc::lookup`].
    #[verifier::external_body]
    pub(crate) fn row_lookup(&self, key: &str, index: usize, field: &str) -> (entry: TomlEntry)
        requires
            toml_row_count(self@, key@) matches Some(n) && index < n,
        ensures
            entry@ == toml_row_lookup(self@, key@, index as int, field@),
    {
        let rows = self.doc.get(key).and_then(|item| item.as_array_of_tables());
        let item = rows.and_then(|rows| rows.iter().nth(index)).and_then(|table| table.get(field));
        match item {
            None => TomlEntry::Absent,
            Some(toml_edit::Item::Value(toml_edit::Value::String(s))) => TomlEntry::Text(s.value().clone()),
            Some(toml_edit::Item::Value(toml_edit::Value::Integer(n))) => TomlEntry::Integer(*n.value()),
            Some(toml_edit::Item::Value(toml_edit::Value::Float(f))) => TomlEntry::Float(f.value().to_bits()),
            Some(toml_edit::Item::Table(_)) => TomlEntry::Table,
            Some(_) => TomlEntry::Other,
        }
    }

    /// Inserts an empty table under `table` at the top level, where nothing is
    /// yet (`doc[table] = Item::Table(Table::new())`); afterwards a table is
    /// found there, and every other key reads as before.
    #[verifier::external_body]
    pub(crate) fn insert_table(&mut self, table: &str)
        requires
            toml_lookup(old(self)@, None, table@) is Absent,
        ensures
            final(self)@ == old(self)@.push(TomlEdit::NewTable(table@)),
            toml_lookup(final(self)@, None, table@) is Table,
            forall|t: Option<Seq<char>>, k: Seq<char>|
                !(t is None && k == table@) ==> #[trigger] toml_lookup(final(self)@, t, k) == toml_lookup(
                    old(self)@,
                    t,
                    k,
                ),
    {
        self.doc[table] = toml_edit::Item::Table(toml_edit::Table::new());
        self.history = Ghost(self.history@.push(TomlEdit::NewTable(table@)));
    }

    /// `doc[table][key] = value(text)`: afterwards the key reads back as that
    /// string, every other key of the document reads as before, and the
    /// top-level item stays a table.
    #[verifier::external_body]
    pub(crate) fn set_text(&mut self, table: &str, key: &str, text: &str)
        requires
            toml_lookup(old(self)@, None, table@) is Table,
        ensures
            final(self)@ == old(self)@.push(TomlEdit::SetText(table@, key@, text@)),
            toml_lookup(final(self)@, None, table@) is Table,
            toml_lookup(final(self)@, Some(table@), key@) == TomlValue::Text(text@),
            forall|t: Option<Seq<char>>, k: Seq<char>|
                !(t == Some(table@) && k == key@) ==> #[trigger] toml_lookup(final(self)@, t, k) == toml_lookup(
                    old(self)@,
                    t,
                    k,
                ),
    {
        self.doc[table][key] = toml_edit::value(text);
        self.history = Ghost(self.history@.push(TomlEdit::SetText(table@, key@, text@)));
    }

    /// `doc[table][key] = value(n)`: afterwards the key reads back as that
    /// integer, every other key of the document reads as before, and the
    /// top-level item stays a table.
    #[verifier::external_body]
    pub(crate) fn set_integer(&mut self, table: &str, key: &str, n: i64)
        requires
            toml_lookup(old(self)@, None, table@) is Table,
        ensures
            final(self)@ == old(self)@.push(TomlEdit::SetInteger(table@, key@, n)),
            toml_lookup(final(self)@, None, table@) is Table,
            toml_lookup(final(self)@, Some(table@), key@) == TomlValue::Integer(n),
            forall|t: Option<Seq<char>>, k: Seq<char>|
                !(t == Some(table@) && k == key@) ==> #[trigger] toml_lookup(final(self)@, t, k) == toml_lookup(
                    old(self)@,
                    t,
                    k,
                ),
    {
        self.doc[table][key] = toml_edit::value(n);
        self.history = Ghost(self.history@.push(TomlEdit::SetInteger(table@, key@, n)));
    }

    /// The document text (`DocumentMut`'s `Display`). It is valid TOML that
    /// parses back to a document with the same item at every key. This rests
    /// on `toml_edit` being format-preserving (its crate documentation): the
    /// encoder writes every table and value that was parsed with its original
    /// text (`visit_table` and `encode_formatted` in `encode.rs` emit the
    /// stored repr), and the values set here are plain strings and integers,
    /// written in their default repr.
    #[verifier::external_body]
    pub(crate) fn render(&self) -> (text: String)
        ensures
            text@ == toml_render(self@),
            toml_parse_error(text@) is None,
            forall|table: Option<Seq<char>>, key: Seq<char>|
                #[trigger] toml_lookup(
                    seq![TomlEdit::Parsed(text@)],
                    table,
                    key,
                ) == toml_lookup(self@, table, key),
    {
        self.doc.to_string()
    }
}

} // verus!
