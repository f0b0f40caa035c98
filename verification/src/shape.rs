//! The shape of a manifest: which keys a document must hold, and of what
//! kind their values must be.

use vstd::prelude::*;
use vstd::string::*;
use crate::document::{Entry, Node};
use crate::sequence::{first_where, lemma_first_where, lemma_first_where_bounds};
use crate::manifest::{stage_views, text_views, QuestConfig, QuestConfigView, Stage, StageView};
use crate::text::{append_decimal, decimal};

verus! {

/// A key of the document that the shape speaks of.
#[derive(Debug, Clone, Copy, PartialEq, Eq, Structural)]
pub enum Key {
    Title,
    Author,
    Repo,
    Stages,
    ReadOnly,
    Final,
    Label,
    Description,
}

/// The key as the document writes it.
pub open spec fn key_name(key: Key) -> Seq<char> {
    match key {
        Key::Title => "title"@,
        Key::Author => "author"@,
        Key::Repo => "repo"@,
        Key::Stages => "stages"@,
        Key::ReadOnly => "read-only"@,
        Key::Final => "final"@,
        Key::Label => "label"@,
        Key::Description => "description"@,
    }
}

/// How a document fails to fit the shape. Stages and the entries of
/// `read-only` are counted from 1.
#[derive(Debug, Clone, Copy, PartialEq, Eq, Structural)]
pub enum ShapeError {
    /// The document is not a table.
    NotATable,
    /// A required key of the document is absent.
    MissingKey { key: Key },
    /// A key of the document holds a value of the wrong kind.
    WrongKind { key: Key },
    /// An item of `stages` is not a table.
    StageNotATable { stage: usize },
    /// A required key of a stage is absent.
    StageMissingKey { stage: usize, key: Key },
    /// A key of a stage holds a value that is not a string.
    StageWrongKind { stage: usize, key: Key },
    /// An item of `read-only` is not a string.
    PathNotText { entry: usize },
}

impl Key {
    /// The key as the document writes it.
    pub fn name(&self) -> (r: &'static str)
        ensures
            r@ == key_name(*self),
    {
        match self {
            Key::Title => "title",
            Key::Author => "author",
            Key::Repo => "repo",
            Key::Stages => "stages",
            Key::ReadOnly => "read-only",
            Key::Final => "final",
            Key::Label => "label",
            Key::Description => "description",
        }
    }
}

impl ShapeError {
    /// The line that reports this error.
    pub open spec fn message_spec(self) -> Seq<char> {
        match self {
            ShapeError::NotATable => "the document must be a table"@,
            ShapeError::MissingKey { key } => "missing field `"@ + key_name(key) + "`"@,
            ShapeError::WrongKind { key } => "invalid type for field `"@ + key_name(key) + "`"@,
            ShapeError::StageNotATable { stage } => "stage "@ + decimal(stage as nat)
                + " must be a table"@,
            ShapeError::StageMissingKey { stage, key } => "stage "@ + decimal(stage as nat)
                + ": missing field `"@ + key_name(key) + "`"@,
            ShapeError::StageWrongKind { stage, key } => "stage "@ + decimal(stage as nat)
                + ": invalid type for field `"@ + key_name(key) + "`"@,
            ShapeError::PathNotText { entry } => "read-only entry "@ + decimal(entry as nat)
                + " must be a string"@,
        }
    }

    /// Renders the line that reports this error.
    pub fn message(&self) -> (r: String)
        ensures
            r@ == self.message_spec(),
    {
        match self {
            ShapeError::NotATable => String::from_str("the document must be a table"),
            ShapeError::MissingKey { key } => {
                let mut r = String::from_str("missing field `");
                r.append(key.name());
                r.append("`");
                r
            },
            ShapeError::WrongKind { key } => {
                let mut r = String::from_str("invalid type for field `");
                r.append(key.name());
                r.append("`");
                r
            },
            ShapeError::StageNotATable { stage } => {
                let mut r = String::from_str("stage ");
                append_decimal(&mut r, *stage);
                r.append(" must be a table");
                r
            },
            ShapeError::StageMissingKey { stage, key } => {
                let mut r = String::from_str("stage ");
                append_decimal(&mut r, *stage);
                r.append(": missing field `");
                r.append(key.name());
                r.append("`");
                r
            },
            ShapeError::StageWrongKind { stage, key } => {
                let mut r = String::from_str("stage ");
                append_decimal(&mut r, *stage);
                r.append(": invalid type for field `");
                r.append(key.name());
                r.append("`");
                r
            },
            ShapeError::PathNotText { entry } => {
                let mut r = String::from_str("read-only entry ");
                append_decimal(&mut r, *entry);
                r.append(" must be a string");
                r
            },
        }
    }
}

/// The index of the first entry of `entries` under `key`, or their number
/// where there is none.
pub open spec fn position(entries: Seq<Entry>, key: Seq<char>) -> int {
    first_where(entries, |e: Entry| e.key@ == key)
}

/// The value of the first entry of `entries` under `key`.
pub open spec fn lookup(entries: Seq<Entry>, key: Seq<char>) -> Option<Node> {
    let k = position(entries, key);
    if k < entries.len() {
        Some(entries[k].value)
    } else {
        None
    }
}

/// Finds the first entry of `entries` under `key`.
pub fn find(entries: &Vec<Entry>, key: &str) -> (r: Option<usize>)
    ensures
        match r {
            Some(i) => i < entries.len() && i == position(entries@, key@),
            None => position(entries@, key@) == entries.len(),
        },
{
    let wanted = String::from_str(key);
    let ghost same = |e: Entry| e.key@ == key@;
    let n: usize = entries.len();
    let mut i: usize = 0;
    while i < n
        invariant
            n == entries.len(),
            i <= n,
            wanted@ == key@,
            same == (|e: Entry| e.key@ == key@),
            forall|j: int| 0 <= j < i ==> !same(#[trigger] entries@[j]),
        decreases n - i,
    {
        if entries[i].key == wanted {
            proof {
                lemma_first_where(entries@, same, i as int);
            }
            return Some(i);
        }
        i += 1;
    }
    proof {
        lemma_first_where(entries@, same, n as int);
    }
    None
}

/// The string that a table must hold under `key`.
pub open spec fn required_text(entries: Seq<Entry>, key: Key) -> Result<Seq<char>, ShapeError> {
    match lookup(entries, key_name(key)) {
        None => Err(ShapeError::MissingKey { key }),
        Some(Node::Text(s)) => Ok(s@),
        Some(_) => Err(ShapeError::WrongKind { key }),
    }
}

/// Reads the string that a table must hold under `key`.
pub fn read_required_text(entries: &Vec<Entry>, key: Key) -> (r: Result<String, ShapeError>)
    ensures
        match r {
            Ok(s) => required_text(entries@, key) == Ok::<Seq<char>, ShapeError>(s@),
            Err(e) => required_text(entries@, key) == Err::<Seq<char>, ShapeError>(e),
        },
{
    match find(entries, key.name()) {
        None => Err(ShapeError::MissingKey { key }),
        Some(i) => match &entries[i].value {
            Node::Text(s) => Ok(s.clone()),
            _ => Err(ShapeError::WrongKind { key }),
        },
    }
}

/// The error of a stage for that of a table: the same fault, with the
/// number of the stage.
pub open spec fn in_stage(e: ShapeError, index: int) -> ShapeError {
    match e {
        ShapeError::MissingKey { key } => ShapeError::StageMissingKey {
            stage: (index + 1) as usize,
            key,
        },
        ShapeError::WrongKind { key } => ShapeError::StageWrongKind {
            stage: (index + 1) as usize,
            key,
        },
        other => other,
    }
}

/// The stage that the item of `stages` at `index` holds: a table with the
/// strings `label` and `description`. Other keys of it are passed over.
pub open spec fn stage_shape(item: Node, index: int) -> Result<StageView, ShapeError> {
    match item {
        Node::Table(entries) => match required_text(entries@, Key::Label) {
            Err(e) => Err(in_stage(e, index)),
            Ok(label) => match required_text(entries@, Key::Description) {
                Err(e) => Err(in_stage(e, index)),
                Ok(description) => Ok(StageView { label, description }),
            },
        },
        _ => Err(ShapeError::StageNotATable { stage: (index + 1) as usize }),
    }
}

/// Reads the stage that the item of `stages` at `index` holds.
pub fn read_stage(item: &Node, index: usize) -> (r: Result<Stage, ShapeError>)
    requires
        index < usize::MAX,
    ensures
        match r {
            Ok(s) => stage_shape(*item, index as int) == Ok::<StageView, ShapeError>(s@),
            Err(e) => stage_shape(*item, index as int) == Err::<StageView, ShapeError>(e),
        },
{
    match item {
        Node::Table(entries) => {
            let label = match read_required_text(entries, Key::Label) {
                Ok(s) => s,
                Err(ShapeError::MissingKey { key }) => {
                    return Err(ShapeError::StageMissingKey { stage: index + 1, key });
                },
                Err(ShapeError::WrongKind { key }) => {
                    return Err(ShapeError::StageWrongKind { stage: index + 1, key });
                },
                Err(e) => {
                    return Err(e);
                },
            };
            let description = match read_required_text(entries, Key::Description) {
                Ok(s) => s,
                Err(ShapeError::MissingKey { key }) => {
                    return Err(ShapeError::StageMissingKey { stage: index + 1, key });
                },
                Err(ShapeError::WrongKind { key }) => {
                    return Err(ShapeError::StageWrongKind { stage: index + 1, key });
                },
                Err(e) => {
                    return Err(e);
                },
            };
            Ok(Stage { label, description })
        },
        _ => Err(ShapeError::StageNotATable { stage: index + 1 }),
    }
}

/// What each item of `stages` holds, in order.
pub open spec fn stage_shapes(items: Seq<Node>) -> Seq<Result<StageView, ShapeError>> {
    Seq::new(items.len(), |i: int| stage_shape(items[i], i))
}

/// The stages that the items of `stages` hold, in order, or the error of the
/// first item that holds none.
pub open spec fn stages_shape(items: Seq<Node>) -> Result<Seq<StageView>, ShapeError> {
    let shapes = stage_shapes(items);
    let k = first_where(shapes, |r: Result<StageView, ShapeError>| r is Err);
    if k < shapes.len() {
        Err(shapes[k]->Err_0)
    } else {
        Ok(Seq::new(items.len(), |i: int| shapes[i]->Ok_0))
    }
}

/// Reads the stages that the items of `stages` hold.
pub fn read_stages(items: &Vec<Node>) -> (r: Result<Vec<Stage>, ShapeError>)
    ensures
        match r {
            Ok(stages) => stages_shape(items@) == Ok::<Seq<StageView>, ShapeError>(
                stage_views(stages@),
            ),
            Err(e) => stages_shape(items@) == Err::<Seq<StageView>, ShapeError>(e),
        },
{
    let ghost shapes = stage_shapes(items@);
    let ghost failed = |r: Result<StageView, ShapeError>| r is Err;
    let mut stages: Vec<Stage> = Vec::new();
    let n: usize = items.len();
    let mut i: usize = 0;
    while i < n
        invariant
            n == items.len(),
            i <= n,
            shapes == stage_shapes(items@),
            failed == (|r: Result<StageView, ShapeError>| r is Err),
            stages.len() == i,
            forall|j: int|
                0 <= j < i ==> #[trigger] shapes[j] == Ok::<StageView, ShapeError>(stages@[j]@),
        decreases n - i,
    {
        match read_stage(&items[i], i) {
            Ok(stage) => {
                stages.push(stage);
            },
            Err(e) => {
                proof {
                    assert(shapes[i as int] == Err::<StageView, ShapeError>(e));
                    lemma_first_where(shapes, failed, i as int);
                }
                return Err(e);
            },
        }
        i += 1;
    }
    proof {
        lemma_first_where(shapes, failed, n as int);
        assert(Seq::new(items@.len(), |i: int| shapes[i]->Ok_0) =~= stage_views(stages@));
    }
    Ok(stages)
}

/// The path that the item of `read-only` at `index` holds: a string.
pub open spec fn path_shape(item: Node, index: int) -> Result<Seq<char>, ShapeError> {
    match item {
        Node::Text(s) => Ok(s@),
        _ => Err(ShapeError::PathNotText { entry: (index + 1) as usize }),
    }
}

/// What each item of `read-only` holds, in order.
pub open spec fn path_shapes(items: Seq<Node>) -> Seq<Result<Seq<char>, ShapeError>> {
    Seq::new(items.len(), |i: int| path_shape(items[i], i))
}

/// The paths that the items of `read-only` hold, in order, or the error of
/// the first item that holds none.
pub open spec fn paths_shape(items: Seq<Node>) -> Result<Seq<Seq<char>>, ShapeError> {
    let shapes = path_shapes(items);
    let k = first_where(shapes, |r: Result<Seq<char>, ShapeError>| r is Err);
    if k < shapes.len() {
        Err(shapes[k]->Err_0)
    } else {
        Ok(Seq::new(items.len(), |i: int| shapes[i]->Ok_0))
    }
}

/// Reads the paths that the items of `read-only` hold.
pub fn read_paths(items: &Vec<Node>) -> (r: Result<Vec<String>, ShapeError>)
    ensures
        match r {
            Ok(paths) => paths_shape(items@) == Ok::<Seq<Seq<char>>, ShapeError>(
                text_views(paths@),
            ),
            Err(e) => paths_shape(items@) == Err::<Seq<Seq<char>>, ShapeError>(e),
        },
{
    let ghost shapes = path_shapes(items@);
    let ghost failed = |r: Result<Seq<char>, ShapeError>| r is Err;
    let mut paths: Vec<String> = Vec::new();
    let n: usize = items.len();
    let mut i: usize = 0;
    while i < n
        invariant
            n == items.len(),
            i <= n,
            shapes == path_shapes(items@),
            failed == (|r: Result<Seq<char>, ShapeError>| r is Err),
            paths.len() == i,
            forall|j: int|
                0 <= j < i ==> #[trigger] shapes[j] == Ok::<Seq<char>, ShapeError>(paths@[j]@),
        decreases n - i,
    {
        match &items[i] {
            Node::Text(s) => {
                paths.push(s.clone());
            },
            _ => {
                let e = ShapeError::PathNotText { entry: i + 1 };
                proof {
                    assert(shapes[i as int] == Err::<Seq<char>, ShapeError>(e));
                    lemma_first_where(shapes, failed, i as int);
                }
                return Err(e);
            },
        }
        i += 1;
    }
    proof {
        lemma_first_where(shapes, failed, n as int);
        assert(Seq::new(items@.len(), |i: int| shapes[i]->Ok_0) =~= text_views(paths@));
    }
    Ok(paths)
}

/// The stages that a document holds under `stages`: an array of stages,
/// which may be empty.
pub open spec fn required_stages(entries: Seq<Entry>) -> Result<Seq<StageView>, ShapeError> {
    match lookup(entries, key_name(Key::Stages)) {
        None => Err(ShapeError::MissingKey { key: Key::Stages }),
        Some(Node::Array(items)) => stages_shape(items@),
        Some(_) => Err(ShapeError::WrongKind { key: Key::Stages }),
    }
}

/// The paths that a document holds under `read-only`: none where the key is
/// absent, else an array of strings.
pub open spec fn optional_paths(entries: Seq<Entry>) -> Result<Option<Seq<Seq<char>>>, ShapeError> {
    match lookup(entries, key_name(Key::ReadOnly)) {
        None => Ok(None),
        Some(Node::Array(items)) => match paths_shape(items@) {
            Ok(paths) => Ok(Some(paths)),
            Err(e) => Err(e),
        },
        Some(_) => Err(ShapeError::WrongKind { key: Key::ReadOnly }),
    }
}

/// The manifest that a document holds, or the first fault of its shape, in
/// the order title, author, repo, stages, read-only. Under `final` any value
/// fits, and keys that the shape does not name are passed over.
pub open spec fn manifest_shape(doc: Node) -> Result<QuestConfigView, ShapeError> {
    match doc {
        Node::Table(table) => {
            let entries = table@;
            match required_text(entries, Key::Title) {
                Err(e) => Err(e),
                Ok(title) => match required_text(entries, Key::Author) {
                    Err(e) => Err(e),
                    Ok(author) => match required_text(entries, Key::Repo) {
                        Err(e) => Err(e),
                        Ok(repo) => match required_stages(entries) {
                            Err(e) => Err(e),
                            Ok(stages) => match optional_paths(entries) {
                                Err(e) => Err(e),
                                Ok(read_only) => Ok(
                                    QuestConfigView {
                                        title,
                                        author,
                                        repo,
                                        stages,
                                        read_only,
                                        final_section: lookup(entries, key_name(Key::Final)),
                                    },
                                ),
                            },
                        },
                    },
                },
            }
        },
        _ => Err(ShapeError::NotATable),
    }
}

/// Maps a document onto the manifest that it holds.
pub fn shape_manifest(doc: Node) -> (r: Result<QuestConfig, ShapeError>)
    ensures
        match r {
            Ok(config) => manifest_shape(doc) == Ok::<QuestConfigView, ShapeError>(config@),
            Err(e) => manifest_shape(doc) == Err::<QuestConfigView, ShapeError>(e),
        },
{
    let mut table = match doc {
        Node::Table(table) => table,
        _ => {
            return Err(ShapeError::NotATable);
        },
    };
    let ghost entries = table@;
    let title = match read_required_text(&table, Key::Title) {
        Ok(s) => s,
        Err(e) => {
            return Err(e);
        },
    };
    let author = match read_required_text(&table, Key::Author) {
        Ok(s) => s,
        Err(e) => {
            return Err(e);
        },
    };
    let repo = match read_required_text(&table, Key::Repo) {
        Ok(s) => s,
        Err(e) => {
            return Err(e);
        },
    };
    let stages = match find(&table, Key::Stages.name()) {
        None => {
            return Err(ShapeError::MissingKey { key: Key::Stages });
        },
        Some(i) => match &table[i].value {
            Node::Array(items) => match read_stages(items) {
                Ok(stages) => stages,
                Err(e) => {
                    return Err(e);
                },
            },
            _ => {
                return Err(ShapeError::WrongKind { key: Key::Stages });
            },
        },
    };
    let read_only = match find(&table, Key::ReadOnly.name()) {
        None => None,
        Some(i) => match &table[i].value {
            Node::Array(items) => match read_paths(items) {
                Ok(paths) => Some(paths),
                Err(e) => {
                    return Err(e);
                },
            },
            _ => {
                return Err(ShapeError::WrongKind { key: Key::ReadOnly });
            },
        },
    };
    let final_section = match find(&table, Key::Final.name()) {
        None => None,
        Some(i) => Some(table.remove(i).value),
    };
    let config = QuestConfig { title, author, repo, stages, read_only, final_section };
    proof {
        assert(config@.read_only == optional_paths(entries)->Ok_0);
        assert(config@ == manifest_shape(doc)->Ok_0);
    }
    Ok(config)
}

/// A document that lacks one of the keys `title`, `author`, `repo` and
/// `stages` holds no manifest.
pub proof fn lemma_missing_key_is_a_fault(doc: Node, key: Key)
    requires
        key == Key::Title || key == Key::Author || key == Key::Repo || key == Key::Stages,
        doc matches Node::Table(table) && lookup(table@, key_name(key)) is None,
    ensures
        manifest_shape(doc) is Err,
{
}

/// The items that a document holds under `stages`, where the document is a
/// table with an array under that key.
pub open spec fn stage_items(doc: Node) -> Option<Seq<Node>> {
    match doc {
        Node::Table(table) => match lookup(table@, key_name(Key::Stages)) {
            Some(Node::Array(items)) => Some(items@),
            _ => None,
        },
        _ => None,
    }
}

/// Whether `item` is a table without an entry under `key`.
pub open spec fn lacks(item: Node, key: Key) -> bool {
    match item {
        Node::Table(table) => lookup(table@, key_name(key)) is None,
        _ => false,
    }
}

/// A document with a stage that lacks its label or its description holds no
/// manifest: such a stage is a fault of the shape, whatever else the
/// document holds.
pub proof fn lemma_stage_without_text_is_a_fault(doc: Node, index: int, key: Key)
    requires
        key == Key::Label || key == Key::Description,
        stage_items(doc) is Some,
        0 <= index < stage_items(doc)->Some_0.len(),
        lacks(stage_items(doc)->Some_0[index], key),
    ensures
        manifest_shape(doc) is Err,
{
    let items = stage_items(doc)->Some_0;
    let shapes = stage_shapes(items);
    let failed = |r: Result<StageView, ShapeError>| r is Err;
    assert(shapes[index] is Err);
    lemma_first_where_bounds(shapes, failed);
    let k = first_where(shapes, failed);
    if k >= shapes.len() {
        assert(!failed(shapes[index]));
    }
    assert(stages_shape(items) is Err);
}

} // verus!
