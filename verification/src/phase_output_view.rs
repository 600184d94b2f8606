//! What the dashboard shows of a Phase Output.

use vstd::prelude::*;

use crate::contracts::{
    PhaseOutputBody, PhaseOutputResponse, PlanningSelection, RejectedPlanningCandidate,
    ReviewFinding,
};
use crate::numerals::decimal_u64;
#[allow(unused_imports)]
use crate::numerals::decimal;
#[allow(unused_imports)]
use crate::json::{text_field, unsigned_field};
#[allow(unused_imports)]
use crate::phase_body_format::legacy_body;
use crate::text::{concat, same_text};
#[allow(unused_imports)]
use crate::text::{opt_view, views};
use crate::text_parts::join_strings;
#[allow(unused_imports)]
use crate::text_parts::join;
use crate::ui::PillTone;

verus! {

// --- The pieces ---

/// A text, and the name under which it is found.
#[derive(Clone, Debug, Eq, PartialEq)]
pub struct Line {
    pub name: &'static str,
    pub text: String,
}

/// An item of a list: texts one below the other.
#[derive(Clone, Debug, Eq, PartialEq)]
pub struct Item {
    pub name: &'static str,
    /// The texts. The name of a text that makes up the whole item is empty.
    pub lines: Vec<Line>,
}

/// A piece of a view.
#[derive(Clone, Debug, Eq, PartialEq)]
pub enum Piece {
    Paragraph(Line),
    /// Text whose white space is kept.
    Block(Line),
    /// A list with points.
    Bullets { name: &'static str, items: Vec<Item> },
    /// A list with numbers.
    Numbers { name: &'static str, items: Vec<Item> },
}

/// The view of a body.
#[derive(Clone, Debug, Eq, PartialEq)]
pub struct BodyView {
    /// The name of the view; empty where it has none.
    pub name: &'static str,
    pub pieces: Vec<Piece>,
}

/// What a text is, and its name.
pub struct LineModel {
    pub name: Seq<char>,
    pub text: Seq<char>,
}

/// What an item is.
#[verifier::ext_equal]
pub struct ItemModel {
    pub name: Seq<char>,
    pub lines: Seq<LineModel>,
}

/// What a piece is.
#[verifier::ext_equal]
pub enum PieceModel {
    Paragraph(LineModel),
    Block(LineModel),
    Bullets { name: Seq<char>, items: Seq<ItemModel> },
    Numbers { name: Seq<char>, items: Seq<ItemModel> },
}

impl View for Line {
    type V = LineModel;

    open spec fn view(&self) -> LineModel {
        LineModel { name: self.name@, text: self.text@ }
    }
}

impl View for Item {
    type V = ItemModel;

    open spec fn view(&self) -> ItemModel {
        ItemModel { name: self.name@, lines: self.lines@.map_values(|line: Line| line@) }
    }
}

/// What the items are.
pub open spec fn item_models(items: Seq<Item>) -> Seq<ItemModel> {
    items.map_values(|item: Item| item@)
}

impl View for Piece {
    type V = PieceModel;

    open spec fn view(&self) -> PieceModel {
        match self {
            Piece::Paragraph(line) => PieceModel::Paragraph(line@),
            Piece::Block(line) => PieceModel::Block(line@),
            Piece::Bullets { name, items } => PieceModel::Bullets {
                name: name@,
                items: item_models(items@),
            },
            Piece::Numbers { name, items } => PieceModel::Numbers {
                name: name@,
                items: item_models(items@),
            },
        }
    }
}

/// What the pieces are.
pub open spec fn piece_models(pieces: Seq<Piece>) -> Seq<PieceModel> {
    pieces.map_values(|piece: Piece| piece@)
}

// --- What is shown ---

/// A paragraph, where there is a text.
pub open spec fn paragraph_of(name: Seq<char>, text: Seq<char>) -> Seq<PieceModel> {
    if text.len() > 0 {
        seq![PieceModel::Paragraph(LineModel { name, text })]
    } else {
        seq![]
    }
}

/// A block of the lines, where there are any.
pub open spec fn block_of(name: Seq<char>, lines: Seq<Seq<char>>) -> Seq<PieceModel> {
    if lines.len() > 0 {
        seq![PieceModel::Block(LineModel { name, text: join(lines, "\n"@) })]
    } else {
        seq![]
    }
}

/// An item that is one text.
pub open spec fn plain_item(name: Seq<char>, text: Seq<char>) -> ItemModel {
    ItemModel { name, lines: seq![LineModel { name: ""@, text }] }
}

/// A list of the texts, where there are any.
pub open spec fn bullets_of(name: Seq<char>, item_name: Seq<char>, texts: Seq<Seq<char>>) -> Seq<
    PieceModel,
> {
    if texts.len() > 0 {
        seq![
            PieceModel::Bullets {
                name,
                items: texts.map_values(|text: Seq<char>| plain_item(item_name, text)),
            },
        ]
    } else {
        seq![]
    }
}

/// The item of a finding: where it is, if that is known, and what it says.
pub open spec fn finding_item(finding: ReviewFinding) -> ItemModel {
    let message = LineModel {
        name: "phase-output-review-finding-message"@,
        text: finding.message@,
    };
    ItemModel {
        name: "phase-output-review-finding"@,
        lines: match finding.location {
            Some(location) => seq![
                LineModel { name: "phase-output-review-finding-location"@, text: location@ },
                message,
            ],
            None => seq![message],
        },
    }
}

/// The findings, where there are any.
pub open spec fn findings_of(findings: Seq<ReviewFinding>) -> Seq<PieceModel> {
    if findings.len() > 0 {
        seq![
            PieceModel::Numbers {
                name: "phase-output-review-findings"@,
                items: findings.map_values(|finding: ReviewFinding| finding_item(finding)),
            },
        ]
    } else {
        seq![]
    }
}

/// The item of a selection: the issue, its branch, and why it was selected, if
/// that is known.
pub open spec fn selection_item(selection: PlanningSelection) -> ItemModel {
    let source = LineModel {
        name: "phase-output-planning-selection-source"@,
        text: selection.source_issue_id@ + " — "@ + selection.title@,
    };
    let branch = LineModel {
        name: "phase-output-planning-selection-branch"@,
        text: selection.branch@,
    };
    ItemModel {
        name: "phase-output-planning-selection"@,
        lines: if selection.selection_summary@.len() > 0 {
            seq![
                source,
                branch,
                LineModel {
                    name: "phase-output-planning-selection-summary"@,
                    text: selection.selection_summary@,
                },
            ]
        } else {
            seq![source, branch]
        },
    }
}

/// The selections, where there are any.
pub open spec fn selections_of(selections: Seq<PlanningSelection>) -> Seq<PieceModel> {
    if selections.len() > 0 {
        seq![
            PieceModel::Bullets {
                name: "phase-output-planning-selections"@,
                items: selections.map_values(
                    |selection: PlanningSelection| selection_item(selection),
                ),
            },
        ]
    } else {
        seq![]
    }
}

/// The item of a declined candidate: the issue, and why it was declined.
pub open spec fn rejected_item(candidate: RejectedPlanningCandidate) -> ItemModel {
    ItemModel {
        name: "phase-output-planning-rejected"@,
        lines: seq![
            LineModel {
                name: "phase-output-planning-rejected-source"@,
                text: candidate.source_issue_id@,
            },
            LineModel {
                name: "phase-output-planning-rejected-reason"@,
                text: candidate.reason@,
            },
        ],
    }
}

/// The declined candidates, where there are any.
pub open spec fn rejected_of(candidates: Seq<RejectedPlanningCandidate>) -> Seq<PieceModel> {
    if candidates.len() > 0 {
        seq![
            PieceModel::Bullets {
                name: "phase-output-planning-rejected-list"@,
                items: candidates.map_values(
                    |candidate: RejectedPlanningCandidate| rejected_item(candidate),
                ),
            },
        ]
    } else {
        seq![]
    }
}

/// What is said of a plan that selects and declines nothing. A plan that gives
/// its reasons is not explained.
pub open spec fn empty_note(summary: Seq<char>) -> Seq<PieceModel> {
    seq![
        PieceModel::Paragraph(
            LineModel {
                name: "phase-output-planning-empty"@,
                text: if summary.len() == 0 {
                    "No eligible Source Issues selected for this Plan Run."@
                } else {
                    "No selections."@
                },
            },
        ),
    ]
}

/// The name of the view of a body.
pub open spec fn view_name(body: PhaseOutputBody) -> Seq<char> {
    match body {
        PhaseOutputBody::Failed { error, problem_type } => ""@,
        PhaseOutputBody::Implementation { commits, verification, gaps, summary } =>
            "phase-output-implementation"@,
        PhaseOutputBody::Review { findings, verification, gaps, summary } =>
            "phase-output-review"@,
        PhaseOutputBody::Merge { merged_source_ids, verification, gaps, summary, block_reason } =>
            "phase-output-merge"@,
        PhaseOutputBody::Push { stderr, fast_forward, attempt } => "phase-output-push"@,
        PhaseOutputBody::Planning { selections, summary, rejected_candidates } =>
            "phase-output-planning"@,
    }
}

/// What is shown of a body. What is empty is left out.
pub open spec fn view_pieces(body: PhaseOutputBody) -> Seq<PieceModel> {
    match body {
        PhaseOutputBody::Failed { error, problem_type } => seq![
            PieceModel::Paragraph(LineModel { name: "phase-output-error"@, text: error@ }),
        ] + (match problem_type {
            Some(urn) => seq![
                PieceModel::Paragraph(
                    LineModel { name: "phase-output-problem-type"@, text: urn@ },
                ),
            ],
            None => seq![],
        }),
        PhaseOutputBody::Implementation { commits, verification, gaps, summary } => paragraph_of(
            "phase-output-impl-summary"@,
            summary@,
        ) + bullets_of("phase-output-commits"@, "phase-output-commit"@, views(commits@))
            + block_of("phase-output-verification"@, views(verification@)) + bullets_of(
            "phase-output-gaps"@,
            "phase-output-gap"@,
            views(gaps@),
        ),
        PhaseOutputBody::Review { findings, verification, gaps, summary } => paragraph_of(
            "phase-output-review-summary"@,
            summary@,
        ) + findings_of(findings@) + block_of("phase-output-verification"@, views(verification@))
            + bullets_of("phase-output-gaps"@, "phase-output-gap"@, views(gaps@)),
        PhaseOutputBody::Merge { merged_source_ids, verification, gaps, summary, block_reason } =>
            paragraph_of("phase-output-merge-summary"@, summary@) + (match block_reason {
            Some(reason) => seq![
                PieceModel::Paragraph(
                    LineModel { name: "phase-output-merge-block-reason"@, text: reason@ },
                ),
            ],
            None => seq![],
        }) + bullets_of(
            "phase-output-merge-commits"@,
            "phase-output-merge-source"@,
            views(merged_source_ids@),
        ) + block_of("phase-output-merge-verification"@, views(verification@)) + bullets_of(
            "phase-output-merge-gaps"@,
            "phase-output-merge-gap"@,
            views(gaps@),
        ),
        PhaseOutputBody::Push { stderr, fast_forward, attempt } => seq![
            PieceModel::Paragraph(
                LineModel {
                    name: "phase-output-push-attempt"@,
                    text: "attempt "@ + decimal(attempt as nat) + " • fast_forward="@ + (
                    if fast_forward {
                        "true"@
                    } else {
                        "false"@
                    }),
                },
            ),
        ] + (if stderr@.len() > 0 {
            seq![PieceModel::Block(LineModel { name: "phase-output-push-stderr"@, text: stderr@ })]
        } else {
            seq![]
        }),
        PhaseOutputBody::Planning { selections, summary, rejected_candidates } => paragraph_of(
            "phase-output-planning-rationale"@,
            summary@,
        ) + selections_of(selections@) + rejected_of(rejected_candidates@) + (
        if selections@.len() == 0 && rejected_candidates@.len() == 0 {
            empty_note(summary@)
        } else {
            seq![]
        }),
    }
}

// --- Building the view ---

fn push_piece(pieces: &mut Vec<Piece>, piece: Piece)
    ensures
        piece_models(final(pieces)@) == piece_models(old(pieces)@).push(piece@),
{
    let ghost before = pieces@;
    pieces.push(piece);
    assert(piece_models(pieces@) =~= piece_models(before).push(piece@));
}

fn push_text(pieces: &mut Vec<Piece>, name: &'static str, text: &str)
    ensures
        piece_models(final(pieces)@) == piece_models(old(pieces)@).push(
            PieceModel::Paragraph(LineModel { name: name@, text: text@ }),
        ),
{
    push_piece(pieces, Piece::Paragraph(Line { name, text: text.to_owned() }));
}

fn push_paragraph(pieces: &mut Vec<Piece>, name: &'static str, text: &str)
    ensures
        piece_models(final(pieces)@) == piece_models(old(pieces)@) + paragraph_of(name@, text@),
{
    let ghost before = piece_models(pieces@);
    if !text.is_empty() {
        push_text(pieces, name, text);
    }
    assert(piece_models(pieces@) =~= before + paragraph_of(name@, text@));
}

fn push_block(pieces: &mut Vec<Piece>, name: &'static str, lines: &Vec<String>)
    ensures
        piece_models(final(pieces)@) == piece_models(old(pieces)@) + block_of(
            name@,
            views(lines@),
        ),
{
    let ghost before = piece_models(pieces@);
    if lines.len() > 0 {
        push_piece(pieces, Piece::Block(Line { name, text: join_strings(lines, "\n") }));
    }
    assert(piece_models(pieces@) =~= before + block_of(name@, views(lines@)));
}

fn push_bullets(
    pieces: &mut Vec<Piece>,
    name: &'static str,
    item_name: &'static str,
    texts: &Vec<String>,
)
    ensures
        piece_models(final(pieces)@) == piece_models(old(pieces)@) + bullets_of(
            name@,
            item_name@,
            views(texts@),
        ),
{
    let ghost before = piece_models(pieces@);
    let ghost wanted = views(texts@).map_values(|text: Seq<char>| plain_item(item_name@, text));
    let mut items: Vec<Item> = Vec::new();
    let mut i: usize = 0;
    while i < texts.len()
        invariant
            i <= texts.len(),
            wanted == views(texts@).map_values(
                |text: Seq<char>| plain_item(item_name@, text),
            ),
            item_models(items@) =~= wanted.take(i as int),
        decreases texts.len() - i,
    {
        let mut lines: Vec<Line> = Vec::new();
        lines.push(Line { name: "", text: texts[i].clone() });
        let item = Item { name: item_name, lines };
        proof {
            assert(item@.lines =~= plain_item(item_name@, texts@[i as int]@).lines);
            assert(wanted[i as int] == plain_item(item_name@, texts@[i as int]@));
        }
        let ghost so_far = items@;
        items.push(item);
        assert(item_models(items@) =~= item_models(so_far).push(item@));
        i += 1;
    }
    assert(wanted.take(i as int) =~= wanted);
    if texts.len() > 0 {
        push_piece(pieces, Piece::Bullets { name, items });
    }
    assert(piece_models(pieces@) =~= before + bullets_of(name@, item_name@, views(texts@)));
}

fn item_of_finding(finding: &ReviewFinding) -> (item: Item)
    ensures
        item@ == finding_item(*finding),
{
    let mut lines: Vec<Line> = Vec::new();
    match &finding.location {
        Some(location) => {
            lines.push(
                Line {
                    name: "phase-output-review-finding-location",
                    text: location.clone(),
                },
            );
        },
        None => {},
    }
    lines.push(
        Line { name: "phase-output-review-finding-message", text: finding.message.clone() },
    );
    let item = Item { name: "phase-output-review-finding", lines };
    assert(item@.lines =~= finding_item(*finding).lines);
    item
}

fn push_findings(pieces: &mut Vec<Piece>, findings: &Vec<ReviewFinding>)
    ensures
        piece_models(final(pieces)@) == piece_models(old(pieces)@) + findings_of(findings@),
{
    let ghost before = piece_models(pieces@);
    let ghost wanted = findings@.map_values(|finding: ReviewFinding| finding_item(finding));
    let mut items: Vec<Item> = Vec::new();
    let mut i: usize = 0;
    while i < findings.len()
        invariant
            i <= findings.len(),
            wanted == findings@.map_values(|finding: ReviewFinding| finding_item(finding)),
            item_models(items@) =~= wanted.take(i as int),
        decreases findings.len() - i,
    {
        let item = item_of_finding(&findings[i]);
        let ghost so_far = items@;
        items.push(item);
        assert(item_models(items@) =~= item_models(so_far).push(item@));
        i += 1;
    }
    assert(wanted.take(i as int) =~= wanted);
    if findings.len() > 0 {
        push_piece(pieces, Piece::Numbers { name: "phase-output-review-findings", items });
    }
    assert(piece_models(pieces@) =~= before + findings_of(findings@));
}

fn item_of_selection(selection: &PlanningSelection) -> (item: Item)
    ensures
        item@ == selection_item(*selection),
{
    let mut source = concat(selection.source_issue_id.as_str(), " — ");
    source.append(selection.title.as_str());
    let mut lines: Vec<Line> = Vec::new();
    lines.push(Line { name: "phase-output-planning-selection-source", text: source });
    lines.push(
        Line { name: "phase-output-planning-selection-branch", text: selection.branch.clone() },
    );
    if !selection.selection_summary.as_str().is_empty() {
        lines.push(
            Line {
                name: "phase-output-planning-selection-summary",
                text: selection.selection_summary.clone(),
            },
        );
    }
    let item = Item { name: "phase-output-planning-selection", lines };
    assert(item@.lines =~= selection_item(*selection).lines);
    item
}

fn push_selections(pieces: &mut Vec<Piece>, selections: &Vec<PlanningSelection>)
    ensures
        piece_models(final(pieces)@) == piece_models(old(pieces)@) + selections_of(selections@),
{
    let ghost before = piece_models(pieces@);
    let ghost wanted = selections@.map_values(
        |selection: PlanningSelection| selection_item(selection),
    );
    let mut items: Vec<Item> = Vec::new();
    let mut i: usize = 0;
    while i < selections.len()
        invariant
            i <= selections.len(),
            wanted == selections@.map_values(
                |selection: PlanningSelection| selection_item(selection),
            ),
            item_models(items@) =~= wanted.take(i as int),
        decreases selections.len() - i,
    {
        let item = item_of_selection(&selections[i]);
        let ghost so_far = items@;
        items.push(item);
        assert(item_models(items@) =~= item_models(so_far).push(item@));
        i += 1;
    }
    assert(wanted.take(i as int) =~= wanted);
    if selections.len() > 0 {
        push_piece(pieces, Piece::Bullets { name: "phase-output-planning-selections", items });
    }
    assert(piece_models(pieces@) =~= before + selections_of(selections@));
}

fn item_of_rejected(candidate: &RejectedPlanningCandidate) -> (item: Item)
    ensures
        item@ == rejected_item(*candidate),
{
    let mut lines: Vec<Line> = Vec::new();
    lines.push(
        Line {
            name: "phase-output-planning-rejected-source",
            text: candidate.source_issue_id.clone(),
        },
    );
    lines.push(
        Line { name: "phase-output-planning-rejected-reason", text: candidate.reason.clone() },
    );
    let item = Item { name: "phase-output-planning-rejected", lines };
    assert(item@.lines =~= rejected_item(*candidate).lines);
    item
}

fn push_rejected(pieces: &mut Vec<Piece>, candidates: &Vec<RejectedPlanningCandidate>)
    ensures
        piece_models(final(pieces)@) == piece_models(old(pieces)@) + rejected_of(candidates@),
{
    let ghost before = piece_models(pieces@);
    let ghost wanted = candidates@.map_values(
        |candidate: RejectedPlanningCandidate| rejected_item(candidate),
    );
    let mut items: Vec<Item> = Vec::new();
    let mut i: usize = 0;
    while i < candidates.len()
        invariant
            i <= candidates.len(),
            wanted == candidates@.map_values(
                |candidate: RejectedPlanningCandidate| rejected_item(candidate),
            ),
            item_models(items@) =~= wanted.take(i as int),
        decreases candidates.len() - i,
    {
        let item = item_of_rejected(&candidates[i]);
        let ghost so_far = items@;
        items.push(item);
        assert(item_models(items@) =~= item_models(so_far).push(item@));
        i += 1;
    }
    assert(wanted.take(i as int) =~= wanted);
    if candidates.len() > 0 {
        push_piece(pieces, Piece::Bullets { name: "phase-output-planning-rejected-list", items });
    }
    assert(piece_models(pieces@) =~= before + rejected_of(candidates@));
}

/// What is shown of a body.
pub fn phase_output_body_view(body: &PhaseOutputBody) -> (view: BodyView)
    ensures
        view.name@ == view_name(*body),
        piece_models(view.pieces@) == view_pieces(*body),
{
    let mut pieces: Vec<Piece> = Vec::new();
    let name = match body {
        PhaseOutputBody::Failed { error, problem_type } => {
            push_text(&mut pieces, "phase-output-error", error.as_str());
            match problem_type {
                Some(urn) => push_text(&mut pieces, "phase-output-problem-type", urn.as_str()),
                None => {},
            }
            ""
        },
        PhaseOutputBody::Implementation { commits, verification, gaps, summary } => {
            push_paragraph(&mut pieces, "phase-output-impl-summary", summary.as_str());
            push_bullets(&mut pieces, "phase-output-commits", "phase-output-commit", commits);
            push_block(&mut pieces, "phase-output-verification", verification);
            push_bullets(&mut pieces, "phase-output-gaps", "phase-output-gap", gaps);
            "phase-output-implementation"
        },
        PhaseOutputBody::Review { findings, verification, gaps, summary } => {
            push_paragraph(&mut pieces, "phase-output-review-summary", summary.as_str());
            push_findings(&mut pieces, findings);
            push_block(&mut pieces, "phase-output-verification", verification);
            push_bullets(&mut pieces, "phase-output-gaps", "phase-output-gap", gaps);
            "phase-output-review"
        },
        PhaseOutputBody::Merge { merged_source_ids, verification, gaps, summary, block_reason } => {
            push_paragraph(&mut pieces, "phase-output-merge-summary", summary.as_str());
            match block_reason {
                Some(reason) => push_text(
                    &mut pieces,
                    "phase-output-merge-block-reason",
                    reason.as_str(),
                ),
                None => {},
            }
            push_bullets(
                &mut pieces,
                "phase-output-merge-commits",
                "phase-output-merge-source",
                merged_source_ids,
            );
            push_block(&mut pieces, "phase-output-merge-verification", verification);
            push_bullets(&mut pieces, "phase-output-merge-gaps", "phase-output-merge-gap", gaps);
            "phase-output-merge"
        },
        PhaseOutputBody::Push { stderr, fast_forward, attempt } => {
            let mut text = concat("attempt ", decimal_u64(*attempt as u64).as_str());
            text.append(" • fast_forward=");
            text.append(if *fast_forward { "true" } else { "false" });
            push_text(&mut pieces, "phase-output-push-attempt", text.as_str());
            if !stderr.as_str().is_empty() {
                push_piece(
                    &mut pieces,
                    Piece::Block(
                        Line { name: "phase-output-push-stderr", text: stderr.clone() },
                    ),
                );
            }
            "phase-output-push"
        },
        PhaseOutputBody::Planning { selections, summary, rejected_candidates } => {
            push_paragraph(&mut pieces, "phase-output-planning-rationale", summary.as_str());
            push_selections(&mut pieces, selections);
            push_rejected(&mut pieces, rejected_candidates);
            if selections.len() == 0 && rejected_candidates.len() == 0 {
                let note = if summary.as_str().is_empty() {
                    "No eligible Source Issues selected for this Plan Run."
                } else {
                    "No selections."
                };
                push_text(&mut pieces, "phase-output-planning-empty", note);
            }
            "phase-output-planning"
        },
    };
    assert(piece_models(pieces@) =~= view_pieces(*body));
    BodyView { name, pieces }
}

/// A plan, a push and a failure always have something to show.
pub proof fn law_view_is_not_blank(body: PhaseOutputBody)
    requires
        body is Planning || body is Failed || body is Push,
    ensures
        view_pieces(body).len() > 0,
{
}

// --- The row ---

/// The tone of an outcome.
pub open spec fn outcome_tone(outcome: Seq<char>) -> PillTone {
    if outcome == "ready_for_review"@ || outcome == "approved"@ || outcome == "merged"@ || outcome
        == "succeeded"@ || outcome == "succeeded_empty"@ {
        PillTone::Verified
    } else if outcome == "rejected"@ || outcome == "failed"@ || outcome == "blocked"@ {
        PillTone::Failed
    } else {
        PillTone::Pending
    }
}

/// The row of a Phase Output.
#[derive(Clone, Debug, Eq, PartialEq)]
pub struct PhaseOutputRowView {
    pub tone: PillTone,
    pub pill_label: String,
    /// The summary; empty where there is none.
    pub summary: String,
    /// The body that is shown on expanding.
    pub body: PhaseOutputBody,
    /// What is said of a body that was cut.
    pub truncated: Option<String>,
    /// The name of the row.
    pub name: &'static str,
}

/// The row of a Phase Output.
pub fn phase_output_row(phase_output: &PhaseOutputResponse) -> (row: PhaseOutputRowView)
    ensures
        row.tone == outcome_tone(phase_output.outcome@),
        row.pill_label@ == phase_output.phase@ + " "@ + phase_output.outcome@,
        row.summary@ == (match text_field(phase_output.body_json.value@, "summary"@) {
            Some(summary) => summary,
            None => ""@,
        }),
        row.body@ == legacy_body(phase_output.body_json.text@, phase_output.body_json.value@),
        opt_view(row.truncated) == (match unsigned_field(
            phase_output.body_json.value@,
            "truncated_at"@,
        ) {
            Some(bytes) => Some("[truncated] body was "@ + decimal(bytes as nat) + " bytes"@),
            None => None,
        }),
        row.name@ == (if phase_output.assignment_id is Some {
            "assignment-phase-output-row"@
        } else {
            "plan-run-phase-output-row"@
        }),
{
    let outcome = phase_output.outcome.as_str();
    let tone = if same_text(outcome, "ready_for_review") || same_text(outcome, "approved")
        || same_text(outcome, "merged") || same_text(outcome, "succeeded") || same_text(
        outcome,
        "succeeded_empty",
    ) {
        PillTone::Verified
    } else if same_text(outcome, "rejected") || same_text(outcome, "failed") || same_text(
        outcome,
        "blocked",
    ) {
        PillTone::Failed
    } else {
        PillTone::Pending
    };
    let mut pill_label = concat(phase_output.phase.as_str(), " ");
    pill_label.append(outcome);
    let summary = match phase_output.body_json.value.text_at("summary") {
        Some(summary) => summary.clone(),
        None => "".to_owned(),
    };
    let truncated = match phase_output.body_json.value.unsigned_at("truncated_at") {
        Some(bytes) => {
            let mut text = concat("[truncated] body was ", decimal_u64(bytes).as_str());
            text.append(" bytes");
            Some(text)
        },
        None => None,
    };
    let name = if phase_output.assignment_id.is_some() {
        "assignment-phase-output-row"
    } else {
        "plan-run-phase-output-row"
    };
    let body = PhaseOutputBody::from_legacy_value(&phase_output.body_json);
    PhaseOutputRowView { tone, pill_label, summary, body, truncated, name }
}

} // verus!
