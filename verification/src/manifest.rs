//! The manifest and its stages.

use vstd::prelude::*;
use crate::document::Node;

verus! {

/// One step of a quest.
#[derive(Debug)]
pub struct Stage {
    pub label: String,
    pub description: String,
}

/// What a stage says, as plain text.
pub ghost struct StageView {
    pub label: Seq<char>,
    pub description: Seq<char>,
}

impl View for Stage {
    type V = StageView;

    open spec fn view(&self) -> StageView {
        StageView { label: self.label@, description: self.description@ }
    }
}

/// A quest manifest: the document that describes a quest.
#[derive(Debug)]
pub struct QuestConfig {
    pub title: String,
    pub author: String,
    /// The repository of the quest: an identifier that is not looked into.
    pub repo: String,
    pub stages: Vec<Stage>,
    /// The `read-only` key of the document: paths, kept as written.
    pub read_only: Option<Vec<String>>,
    /// The `final` key of the document: a value of any shape.
    pub final_section: Option<Node>,
}

/// What a manifest holds, as plain values.
pub ghost struct QuestConfigView {
    pub title: Seq<char>,
    pub author: Seq<char>,
    pub repo: Seq<char>,
    pub stages: Seq<StageView>,
    pub read_only: Option<Seq<Seq<char>>>,
    pub final_section: Option<Node>,
}

/// The views of the stages of `stages`, in order.
pub open spec fn stage_views(stages: Seq<Stage>) -> Seq<StageView> {
    Seq::new(stages.len(), |i: int| stages[i]@)
}

/// The views of the strings of `texts`, in order.
pub open spec fn text_views(texts: Seq<String>) -> Seq<Seq<char>> {
    Seq::new(texts.len(), |i: int| texts[i]@)
}

impl View for QuestConfig {
    type V = QuestConfigView;

    open spec fn view(&self) -> QuestConfigView {
        QuestConfigView {
            title: self.title@,
            author: self.author@,
            repo: self.repo@,
            stages: stage_views(self.stages@),
            read_only: match self.read_only {
                Some(paths) => Some(text_views(paths@)),
                None => None,
            },
            final_section: self.final_section,
        }
    }
}

} // verus!
