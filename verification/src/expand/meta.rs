//! The arguments of the console-command attribute: a list of `key = literal`
//! entries that names the usage text, the argument counts and, for a method,
//! the class.

use super::item::is_word;
use crate::util::{parse_i32, parsed_i32};
use vstd::prelude::*;

verus! {

/// The literal on the right of an entry, as written.
#[derive(Debug, Clone, PartialEq, Eq)]
pub enum MetaLit {
    /// An integer literal, with its value written in base ten: the digits,
    /// after a minus sign where the literal has one, without the marks of
    /// another base, without underscores and without a suffix.
    Int(String),
    /// A string literal, with its contents.
    Str(String),
    /// Any other literal.
    Other,
}

/// One entry as written. The key is `None` where the left side is not one
/// plain identifier.
#[derive(Debug, Clone, PartialEq, Eq)]
pub struct MetaEntry {
    pub key: Option<String>,
    pub lit: MetaLit,
}

/// What the literal of an entry denotes.
#[derive(Debug, Clone, PartialEq, Eq)]
pub enum MetaValue {
    /// An integer literal: its value, or `None` where it denotes no `i32`.
    Int(Option<i32>),
    /// A string literal.
    Str(String),
    /// Any other literal.
    Other,
}

pub enum MetaValueView {
    Int(Option<i32>),
    Str(Seq<char>),
    Other,
}

impl DeepView for MetaValue {
    type V = MetaValueView;

    open spec fn deep_view(&self) -> MetaValueView {
        match self {
            MetaValue::Int(value) => MetaValueView::Int(*value),
            MetaValue::Str(text) => MetaValueView::Str(text@),
            MetaValue::Other => MetaValueView::Other,
        }
    }
}

/// One entry with its literal read.
#[derive(Debug, Clone, PartialEq, Eq)]
pub struct MetaItem {
    pub key: Option<String>,
    pub value: MetaValue,
}

pub struct MetaItemView {
    pub key: Option<Seq<char>>,
    pub value: MetaValueView,
}

impl DeepView for MetaItem {
    type V = MetaItemView;

    open spec fn deep_view(&self) -> MetaItemView {
        MetaItemView { key: self.key.deep_view(), value: self.value.deep_view() }
    }
}

/// What `entry` denotes once its literal is read.
pub open spec fn resolved(entry: MetaEntry) -> MetaItemView {
    MetaItemView {
        key: entry.key.deep_view(),
        value: match entry.lit {
            MetaLit::Int(digits) => MetaValueView::Int(parsed_i32(digits@)),
            MetaLit::Str(text) => MetaValueView::Str(text@),
            MetaLit::Other => MetaValueView::Other,
        },
    }
}

/// What `entries` denote, entry by entry.
pub open spec fn resolved_all(entries: Seq<MetaEntry>) -> Seq<MetaItemView> {
    Seq::new(entries.len(), |i: int| resolved(entries[i]))
}

/// Why a list of entries is refused. `entry` counts the entries from zero.
#[derive(Debug, Clone, Copy, PartialEq, Eq, Structural)]
pub enum MetaError {
    /// The left side of an entry is not one plain identifier.
    ExpectedIdent { entry: usize },
    /// `args` is given something else than an integer.
    ArgsNotInt { entry: usize },
    /// `class` is given something else than a string.
    ClassNotStr { entry: usize },
    /// `max_args` is given something else than an integer.
    MaxArgsNotInt { entry: usize },
    /// `min_args` is given something else than an integer.
    MinArgsNotInt { entry: usize },
    /// `usage` is given something else than a string.
    UsageNotStr { entry: usize },
    /// The key is none of the five that are known.
    UnrecognizedKey { entry: usize },
    /// An integer literal denotes no `i32`.
    BadInt { entry: usize },
    /// No entry gives the usage text.
    MissingUsage,
    /// No entry gives the least number of arguments.
    MissingMinArgs,
    /// No entry gives the greatest number of arguments.
    MissingMaxArgs,
}

/// The arguments of the attribute, once read.
#[derive(Debug, Clone, PartialEq, Eq)]
pub struct ConsoleFnMeta {
    pub class: Option<String>,
    pub usage: String,
    pub min_args: i32,
    pub max_args: i32,
}

pub struct ConsoleFnMetaView {
    pub class: Option<Seq<char>>,
    pub usage: Seq<char>,
    pub min_args: i32,
    pub max_args: i32,
}

impl DeepView for ConsoleFnMeta {
    type V = ConsoleFnMetaView;

    open spec fn deep_view(&self) -> ConsoleFnMetaView {
        ConsoleFnMetaView {
            class: self.class.deep_view(),
            usage: self.usage@,
            min_args: self.min_args,
            max_args: self.max_args,
        }
    }
}

/// What has been gathered from the entries read so far.
pub struct Gathered {
    pub class: Option<Seq<char>>,
    pub usage: Option<Seq<char>>,
    pub min_args: Option<i32>,
    pub max_args: Option<i32>,
}

/// Nothing gathered yet.
pub open spec fn nothing_gathered() -> Gathered {
    Gathered { class: None, usage: None, min_args: None, max_args: None }
}

/// An integer entry: its value, or the error that refuses it.
pub open spec fn int_of(value: MetaValueView, entry: usize, not_int: MetaError) -> Result<
    i32,
    MetaError,
> {
    match value {
        MetaValueView::Int(Some(v)) => Ok(v),
        MetaValueView::Int(None) => Err(MetaError::BadInt { entry }),
        _ => Err(not_int),
    }
}

/// A string entry: its contents, or the error that refuses it.
pub open spec fn str_of(value: MetaValueView, not_str: MetaError) -> Result<Seq<char>, MetaError> {
    match value {
        MetaValueView::Str(text) => Ok(text),
        _ => Err(not_str),
    }
}

/// Takes one more entry into what was gathered. A later entry for a key
/// replaces an earlier one, and `args` sets both argument counts.
pub open spec fn gather_one(g: Gathered, item: MetaItemView, entry: usize) -> Result<
    Gathered,
    MetaError,
> {
    match item.key {
        None => Err(MetaError::ExpectedIdent { entry }),
        Some(key) => if key == "args"@ {
            match int_of(item.value, entry, MetaError::ArgsNotInt { entry }) {
                Ok(v) => Ok(Gathered { min_args: Some(v), max_args: Some(v), ..g }),
                Err(e) => Err(e),
            }
        } else if key == "class"@ {
            match str_of(item.value, MetaError::ClassNotStr { entry }) {
                Ok(text) => Ok(Gathered { class: Some(text), ..g }),
                Err(e) => Err(e),
            }
        } else if key == "max_args"@ {
            match int_of(item.value, entry, MetaError::MaxArgsNotInt { entry }) {
                Ok(v) => Ok(Gathered { max_args: Some(v), ..g }),
                Err(e) => Err(e),
            }
        } else if key == "min_args"@ {
            match int_of(item.value, entry, MetaError::MinArgsNotInt { entry }) {
                Ok(v) => Ok(Gathered { min_args: Some(v), ..g }),
                Err(e) => Err(e),
            }
        } else if key == "usage"@ {
            match str_of(item.value, MetaError::UsageNotStr { entry }) {
                Ok(text) => Ok(Gathered { usage: Some(text), ..g }),
                Err(e) => Err(e),
            }
        } else {
            Err(MetaError::UnrecognizedKey { entry })
        },
    }
}

/// Takes the entries in order; the first one refused ends the reading.
pub open spec fn gather(items: Seq<MetaItemView>) -> Result<Gathered, MetaError>
    decreases items.len(),
{
    if items.len() == 0 {
        Ok(nothing_gathered())
    } else {
        match gather(items.drop_last()) {
            Ok(g) => gather_one(g, items.last(), (items.len() - 1) as usize),
            Err(e) => Err(e),
        }
    }
}

/// What is owed once every entry is read: the usage text and both counts.
pub open spec fn complete(g: Gathered) -> Result<ConsoleFnMetaView, MetaError> {
    match (g.usage, g.min_args, g.max_args) {
        (None, _, _) => Err(MetaError::MissingUsage),
        (Some(_), None, _) => Err(MetaError::MissingMinArgs),
        (Some(_), Some(_), None) => Err(MetaError::MissingMaxArgs),
        (Some(usage), Some(min_args), Some(max_args)) => Ok(
            ConsoleFnMetaView { class: g.class, usage, min_args, max_args },
        ),
    }
}

/// The arguments that a list of entries gives, or why it is refused.
pub open spec fn meta_of(items: Seq<MetaItemView>) -> Result<ConsoleFnMetaView, MetaError> {
    match gather(items) {
        Ok(g) => complete(g),
        Err(e) => Err(e),
    }
}

/// The view of an optional text held while the entries are read.
pub open spec fn text_view(text: Option<String>) -> Option<Seq<char>> {
    text.deep_view()
}

fn int_value(value: &MetaValue, entry: usize, not_int: MetaError) -> (r: Result<i32, MetaError>)
    ensures
        r == int_of(value.deep_view(), entry, not_int),
{
    match value {
        MetaValue::Int(Some(v)) => Ok(*v),
        MetaValue::Int(None) => Err(MetaError::BadInt { entry }),
        _ => Err(not_int),
    }
}

fn str_value(value: &MetaValue, not_str: MetaError) -> (r: Result<String, MetaError>)
    ensures
        match r {
            Ok(text) => str_of(value.deep_view(), not_str) == Ok::<Seq<char>, MetaError>(text@),
            Err(e) => str_of(value.deep_view(), not_str) == Err::<Seq<char>, MetaError>(e),
        },
{
    match value {
        MetaValue::Str(text) => Ok(text.clone()),
        _ => Err(not_str),
    }
}

impl MetaError {
    /// Whether the error points at an entry, and at which.
    pub open spec fn entry_of(self) -> Option<usize> {
        match self {
            MetaError::ExpectedIdent { entry } => Some(entry),
            MetaError::ArgsNotInt { entry } => Some(entry),
            MetaError::ClassNotStr { entry } => Some(entry),
            MetaError::MaxArgsNotInt { entry } => Some(entry),
            MetaError::MinArgsNotInt { entry } => Some(entry),
            MetaError::UsageNotStr { entry } => Some(entry),
            MetaError::UnrecognizedKey { entry } => Some(entry),
            MetaError::BadInt { entry } => Some(entry),
            _ => None,
        }
    }

    /// The entry that the error points at, if it points at one.
    pub fn entry(self) -> (e: Option<usize>)
        ensures
            e == self.entry_of(),
    {
        match self {
            MetaError::ExpectedIdent { entry } => Some(entry),
            MetaError::ArgsNotInt { entry } => Some(entry),
            MetaError::ClassNotStr { entry } => Some(entry),
            MetaError::MaxArgsNotInt { entry } => Some(entry),
            MetaError::MinArgsNotInt { entry } => Some(entry),
            MetaError::UsageNotStr { entry } => Some(entry),
            MetaError::UnrecognizedKey { entry } => Some(entry),
            MetaError::BadInt { entry } => Some(entry),
            _ => None,
        }
    }

    /// The text of the error. For a key that is not known it is completed by
    /// `unrecognized`, which names the key.
    pub open spec fn text(self) -> Seq<char> {
        match self {
            MetaError::ExpectedIdent { .. } => "expected an identifier"@,
            MetaError::ArgsNotInt { .. } => "args must be an int"@,
            MetaError::ClassNotStr { .. } => "class must be a string"@,
            MetaError::MaxArgsNotInt { .. } => "max_args must be an int"@,
            MetaError::MinArgsNotInt { .. } => "min_args must be an int"@,
            MetaError::UsageNotStr { .. } => "usage must be a string"@,
            MetaError::UnrecognizedKey { .. } => "unrecognized key"@,
            MetaError::BadInt { .. } => "invalid integer"@,
            MetaError::MissingUsage => "missing usage"@,
            MetaError::MissingMinArgs => "missing min_args"@,
            MetaError::MissingMaxArgs => "missing max_args"@,
        }
    }

    /// The text of the error.
    pub fn message(self) -> (m: &'static str)
        ensures
            m@ == self.text(),
    {
        match self {
            MetaError::ExpectedIdent { .. } => "expected an identifier",
            MetaError::ArgsNotInt { .. } => "args must be an int",
            MetaError::ClassNotStr { .. } => "class must be a string",
            MetaError::MaxArgsNotInt { .. } => "max_args must be an int",
            MetaError::MinArgsNotInt { .. } => "min_args must be an int",
            MetaError::UsageNotStr { .. } => "usage must be a string",
            MetaError::UnrecognizedKey { .. } => "unrecognized key",
            MetaError::BadInt { .. } => "invalid integer",
            MetaError::MissingUsage => "missing usage",
            MetaError::MissingMinArgs => "missing min_args",
            MetaError::MissingMaxArgs => "missing max_args",
        }
    }
}

/// What is said of a key that is none of the five that are known.
pub open spec fn unrecognized_text(key: Seq<char>) -> Seq<char> {
    "unrecognized key `"@ + key + "`"@
}

/// The text for an entry whose key is not known: the key between backticks.
pub fn unrecognized(key: &str) -> (m: String)
    ensures
        m@ == unrecognized_text(key@),
{
    String::from_str("unrecognized key `").concat(key).concat("`")
}

impl MetaEntry {
    /// Reads the literal of the entry.
    pub fn resolve(&self) -> (item: MetaItem)
        ensures
            item.deep_view() == resolved(*self),
    {
        let key = match &self.key {
            Some(k) => Some(k.clone()),
            None => None,
        };
        let value = match &self.lit {
            MetaLit::Int(digits) => MetaValue::Int(parse_i32(digits.as_str())),
            MetaLit::Str(text) => MetaValue::Str(text.clone()),
            MetaLit::Other => MetaValue::Other,
        };
        MetaItem { key, value }
    }
}

impl ConsoleFnMeta {
    /// Gathers the arguments from entries whose literals have been read.
    ///
    /// The entries are taken in order and the first one refused decides the
    /// error; only when all are taken is a missing argument reported, the
    /// usage text before the least count, the least before the greatest.
    pub fn from_items(items: &Vec<MetaItem>) -> (r: Result<ConsoleFnMeta, MetaError>)
        ensures
            match r {
                Ok(meta) => meta_of(items.deep_view()) == Ok::<ConsoleFnMetaView, MetaError>(
                    meta.deep_view(),
                ),
                Err(e) => meta_of(items.deep_view()) == Err::<ConsoleFnMetaView, MetaError>(e),
            },
    {
        let mut class: Option<String> = None;
        let mut usage: Option<String> = None;
        let mut min_args: Option<i32> = None;
        let mut max_args: Option<i32> = None;
        let ghost all = items.deep_view();
        let mut i: usize = 0;
        while i < items.len()
            invariant
                i <= items.len(),
                all == items.deep_view(),
                gather(all.take(i as int)) == Ok::<Gathered, MetaError>(
                    Gathered {
                        class: text_view(class),
                        usage: text_view(usage),
                        min_args,
                        max_args,
                    },
                ),
            decreases items.len() - i,
        {
            let item = &items[i];
            proof {
                assert(all.take(i + 1).drop_last() =~= all.take(i as int));
                assert(all.take(i + 1).last() == item.deep_view());
                assert(all.take(items.len() as int) =~= all);
            }
            let ghost before = Gathered {
                class: text_view(class),
                usage: text_view(usage),
                min_args,
                max_args,
            };
            let ghost step = gather_one(before, item.deep_view(), i);
            assert(gather(all.take(i + 1)) == step);
            match &item.key {
                None => {
                    proof {
                        lemma_refused_prefix(all, i + 1);
                    }
                    return Err(MetaError::ExpectedIdent { entry: i });
                },
                Some(key) => {
                    if is_word(key, "args") {
                        match int_value(&item.value, i, MetaError::ArgsNotInt { entry: i }) {
                            Ok(v) => {
                                min_args = Some(v);
                                max_args = Some(v);
                            },
                            Err(e) => {
                                proof {
                                    lemma_refused_prefix(all, i + 1);
                                }
                                return Err(e);
                            },
                        }
                    } else if is_word(key, "class") {
                        match str_value(&item.value, MetaError::ClassNotStr { entry: i }) {
                            Ok(text) => {
                                class = Some(text);
                            },
                            Err(e) => {
                                proof {
                                    lemma_refused_prefix(all, i + 1);
                                }
                                return Err(e);
                            },
                        }
                    } else if is_word(key, "max_args") {
                        match int_value(&item.value, i, MetaError::MaxArgsNotInt { entry: i }) {
                            Ok(v) => {
                                max_args = Some(v);
                            },
                            Err(e) => {
                                proof {
                                    lemma_refused_prefix(all, i + 1);
                                }
                                return Err(e);
                            },
                        }
                    } else if is_word(key, "min_args") {
                        match int_value(&item.value, i, MetaError::MinArgsNotInt { entry: i }) {
                            Ok(v) => {
                                min_args = Some(v);
                            },
                            Err(e) => {
                                proof {
                                    lemma_refused_prefix(all, i + 1);
                                }
                                return Err(e);
                            },
                        }
                    } else if is_word(key, "usage") {
                        match str_value(&item.value, MetaError::UsageNotStr { entry: i }) {
                            Ok(text) => {
                                usage = Some(text);
                            },
                            Err(e) => {
                                proof {
                                    lemma_refused_prefix(all, i + 1);
                                }
                                return Err(e);
                            },
                        }
                    } else {
                        proof {
                            lemma_refused_prefix(all, i + 1);
                        }
                        return Err(MetaError::UnrecognizedKey { entry: i });
                    }
                },
            }
            i += 1;
        }
        proof {
            assert(all.take(items.len() as int) =~= all);
        }
        match usage {
            None => Err(MetaError::MissingUsage),
            Some(usage) => match min_args {
                None => Err(MetaError::MissingMinArgs),
                Some(min_args) => match max_args {
                    None => Err(MetaError::MissingMaxArgs),
                    Some(max_args) => Ok(ConsoleFnMeta { class, usage, min_args, max_args }),
                },
            },
        }
    }

    /// Reads the arguments from the entries as written: each literal is read,
    /// then the entries are gathered as `from_items` does.
    pub fn parse(entries: &Vec<MetaEntry>) -> (r: Result<ConsoleFnMeta, MetaError>)
        ensures
            match r {
                Ok(meta) => meta_of(resolved_all(entries@)) == Ok::<ConsoleFnMetaView, MetaError>(
                    meta.deep_view(),
                ),
                Err(e) => meta_of(resolved_all(entries@)) == Err::<ConsoleFnMetaView, MetaError>(
                    e,
                ),
            },
    {
        let mut items: Vec<MetaItem> = Vec::new();
        let mut i: usize = 0;
        while i < entries.len()
            invariant
                i <= entries.len(),
                items.len() == i,
                forall|k: int| 0 <= k < i ==> (#[trigger] items[k]).deep_view() == resolved(entries[k]),
            decreases entries.len() - i,
        {
            items.push(entries[i].resolve());
            i += 1;
        }
        assert(items.deep_view() =~= resolved_all(entries@));
        ConsoleFnMeta::from_items(&items)
    }
}

/// Once a prefix of the entries is refused, so is the whole list, for the
/// same reason.
pub proof fn lemma_refused_prefix(items: Seq<MetaItemView>, n: int)
    requires
        0 <= n <= items.len(),
        gather(items.take(n)) is Err,
    ensures
        gather(items) == gather(items.take(n)),
    decreases items.len() - n,
{
    if n == items.len() {
        assert(items.take(n) =~= items);
    } else {
        assert(items.take(n + 1).drop_last() =~= items.take(n));
        lemma_refused_prefix(items, n + 1);
    }
}

} // verus!
