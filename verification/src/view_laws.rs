//! What is stored and shown of the outputs of the phases.

use vstd::prelude::*;

#[allow(unused_imports)]
use crate::contracts::{
    PhaseOutputBody, PhaseOutputResponse, PlanningSelection, RejectedPlanningCandidate,
    ReviewFinding,
};
#[allow(unused_imports)]
use crate::json::{json_compact, text_field, unsigned_field, JsonDocument, JsonModel};
#[allow(unused_imports)]
use crate::numerals::decimal;
#[allow(unused_imports)]
use crate::phase_body_format::{BodyModel, FindingModel, RejectionModel, SelectionModel, Stored};
#[allow(unused_imports)]
use crate::phase_output_view::{
    phase_output_body_view, phase_output_row, piece_models, BodyView, ItemModel, LineModel,
    PhaseOutputRowView, PieceModel,
};
#[allow(unused_imports)]
use crate::text::{opt_view, views};
#[allow(unused_imports)]
use crate::text_parts::join;

verus! {

// --- The view of a body ---

/// The piece, where it is shown.
pub open spec fn shown_if(shown: bool, piece: PieceModel) -> Seq<PieceModel> {
    if shown {
        seq![piece]
    } else {
        seq![]
    }
}

/// A line with a name.
pub open spec fn named(name: Seq<char>, text: Seq<char>) -> LineModel {
    LineModel { name, text }
}

/// A list of points, each of them one text.
pub open spec fn points(name: Seq<char>, item_name: Seq<char>, texts: Seq<String>) -> PieceModel {
    PieceModel::Bullets {
        name,
        items: Seq::new(
            texts.len(),
            |i: int| ItemModel { name: item_name, lines: seq![named(""@, texts[i]@)] },
        ),
    }
}

/// An implementation shows its summary, its commits, its verification and its gaps, in this
/// order, and leaves out what is empty.
pub proof fn law_view_of_an_implementation(
    commits: Vec<String>,
    verification: Vec<String>,
    gaps: Vec<String>,
    summary: String,
    view: BodyView,
)
    requires
        call_ensures(
            phase_output_body_view,
            (&PhaseOutputBody::Implementation { commits, verification, gaps, summary },),
            view,
        ),
    ensures
        view.name@ == "phase-output-implementation"@,
        piece_models(view.pieces@) == shown_if(
            summary@.len() > 0,
            PieceModel::Paragraph(named("phase-output-impl-summary"@, summary@)),
        ) + shown_if(
            commits@.len() > 0,
            points("phase-output-commits"@, "phase-output-commit"@, commits@),
        ) + shown_if(
            verification@.len() > 0,
            PieceModel::Block(
                named("phase-output-verification"@, join(views(verification@), "\n"@)),
            ),
        ) + shown_if(gaps@.len() > 0, points("phase-output-gaps"@, "phase-output-gap"@, gaps@)),
{
    lemma_points("phase-output-commits"@, "phase-output-commit"@, commits@);
    lemma_points("phase-output-gaps"@, "phase-output-gap"@, gaps@);
}

proof fn lemma_points(name: Seq<char>, item_name: Seq<char>, texts: Seq<String>)
    ensures
        crate::phase_output_view::bullets_of(name, item_name, views(texts)) == shown_if(
            texts.len() > 0,
            points(name, item_name, texts),
        ),
{
    let shown = crate::phase_output_view::bullets_of(name, item_name, views(texts));
    if texts.len() > 0 {
        assert(shown[0] =~~= points(name, item_name, texts));
        assert(shown =~= seq![points(name, item_name, texts)]);
    }
}

/// The item of a finding: where it is, if that is known, and what it says.
pub open spec fn finding_shown(finding: ReviewFinding) -> ItemModel {
    let message = named("phase-output-review-finding-message"@, finding.message@);
    ItemModel {
        name: "phase-output-review-finding"@,
        lines: if finding.location is Some {
            seq![named("phase-output-review-finding-location"@, finding.location->0@), message]
        } else {
            seq![message]
        },
    }
}

/// A review shows its summary, its numbered findings, its verification and its gaps, in this
/// order, and leaves out what is empty.
pub proof fn law_view_of_a_review(
    findings: Vec<ReviewFinding>,
    verification: Vec<String>,
    gaps: Vec<String>,
    summary: String,
    view: BodyView,
)
    requires
        call_ensures(
            phase_output_body_view,
            (&PhaseOutputBody::Review { findings, verification, gaps, summary },),
            view,
        ),
    ensures
        view.name@ == "phase-output-review"@,
        piece_models(view.pieces@) == shown_if(
            summary@.len() > 0,
            PieceModel::Paragraph(named("phase-output-review-summary"@, summary@)),
        ) + shown_if(
            findings@.len() > 0,
            PieceModel::Numbers {
                name: "phase-output-review-findings"@,
                items: Seq::new(findings@.len(), |i: int| finding_shown(findings@[i])),
            },
        ) + shown_if(
            verification@.len() > 0,
            PieceModel::Block(
                named("phase-output-verification"@, join(views(verification@), "\n"@)),
            ),
        ) + shown_if(gaps@.len() > 0, points("phase-output-gaps"@, "phase-output-gap"@, gaps@)),
{
    lemma_points("phase-output-gaps"@, "phase-output-gap"@, gaps@);
    let shown = crate::phase_output_view::findings_of(findings@);
    let piece = PieceModel::Numbers {
        name: "phase-output-review-findings"@,
        items: Seq::new(findings@.len(), |i: int| finding_shown(findings@[i])),
    };
    if findings@.len() > 0 {
        assert(shown[0] =~~= piece);
        assert(shown =~= seq![piece]);
    }
}

/// A merge shows its summary, why it is blocked, what it merged, its verification and its gaps,
/// in this order, and leaves out what is empty.
pub proof fn law_view_of_a_merge(
    merged_source_ids: Vec<String>,
    verification: Vec<String>,
    gaps: Vec<String>,
    summary: String,
    block_reason: Option<String>,
    view: BodyView,
)
    requires
        call_ensures(
            phase_output_body_view,
            (
                &PhaseOutputBody::Merge {
                    merged_source_ids,
                    verification,
                    gaps,
                    summary,
                    block_reason,
                },
            ),
            view,
        ),
    ensures
        view.name@ == "phase-output-merge"@,
        piece_models(view.pieces@) == shown_if(
            summary@.len() > 0,
            PieceModel::Paragraph(named("phase-output-merge-summary"@, summary@)),
        ) + shown_if(
            block_reason is Some,
            PieceModel::Paragraph(named("phase-output-merge-block-reason"@, block_reason->0@)),
        ) + shown_if(
            merged_source_ids@.len() > 0,
            points("phase-output-merge-commits"@, "phase-output-merge-source"@, merged_source_ids@),
        ) + shown_if(
            verification@.len() > 0,
            PieceModel::Block(
                named("phase-output-merge-verification"@, join(views(verification@), "\n"@)),
            ),
        ) + shown_if(
            gaps@.len() > 0,
            points("phase-output-merge-gaps"@, "phase-output-merge-gap"@, gaps@),
        ),
{
    lemma_points("phase-output-merge-commits"@, "phase-output-merge-source"@, merged_source_ids@);
    lemma_points("phase-output-merge-gaps"@, "phase-output-merge-gap"@, gaps@);
}

/// A push shows the number of its attempt, whether it was a fast-forward, and what the remote
/// said, if anything. A failure shows its error, and its kind if it is known.
pub proof fn law_view_of_a_push_and_of_a_failure(
    stderr: String,
    fast_forward: bool,
    attempt: u32,
    push: BodyView,
    error: String,
    problem_type: Option<String>,
    failure: BodyView,
)
    requires
        call_ensures(
            phase_output_body_view,
            (&PhaseOutputBody::Push { stderr, fast_forward, attempt },),
            push,
        ),
        call_ensures(
            phase_output_body_view,
            (&PhaseOutputBody::Failed { error, problem_type },),
            failure,
        ),
    ensures
        push.name@ == "phase-output-push"@,
        piece_models(push.pieces@) == seq![
            PieceModel::Paragraph(
                named(
                    "phase-output-push-attempt"@,
                    "attempt "@ + decimal(attempt as nat) + " • fast_forward="@ + (
                    if fast_forward {
                        "true"@
                    } else {
                        "false"@
                    }),
                ),
            ),
        ] + shown_if(
            stderr@.len() > 0,
            PieceModel::Block(named("phase-output-push-stderr"@, stderr@)),
        ),
        failure.name@.len() == 0,
        piece_models(failure.pieces@) == seq![
            PieceModel::Paragraph(named("phase-output-error"@, error@)),
        ] + shown_if(
            problem_type is Some,
            PieceModel::Paragraph(named("phase-output-problem-type"@, problem_type->0@)),
        ),
{
    reveal_strlit("");
}

/// The item of a selection: the issue, its branch, and why it was selected, if that is known.
pub open spec fn selection_shown(selection: PlanningSelection) -> ItemModel {
    let lines = seq![
        named(
            "phase-output-planning-selection-source"@,
            selection.source_issue_id@ + " — "@ + selection.title@,
        ),
        named("phase-output-planning-selection-branch"@, selection.branch@),
    ];
    ItemModel {
        name: "phase-output-planning-selection"@,
        lines: if selection.selection_summary@.len() > 0 {
            lines.push(
                named("phase-output-planning-selection-summary"@, selection.selection_summary@),
            )
        } else {
            lines
        },
    }
}

/// A plan shows its reasons, what it selects and what it declines, in this order, and leaves
/// out what is empty. One that does neither says so.
pub proof fn law_view_of_a_plan(
    selections: Vec<PlanningSelection>,
    summary: String,
    rejected_candidates: Vec<RejectedPlanningCandidate>,
    view: BodyView,
)
    requires
        call_ensures(
            phase_output_body_view,
            (&PhaseOutputBody::Planning { selections, summary, rejected_candidates },),
            view,
        ),
    ensures
        view.name@ == "phase-output-planning"@,
        piece_models(view.pieces@) == shown_if(
            summary@.len() > 0,
            PieceModel::Paragraph(named("phase-output-planning-rationale"@, summary@)),
        ) + shown_if(
            selections@.len() > 0,
            PieceModel::Bullets {
                name: "phase-output-planning-selections"@,
                items: Seq::new(selections@.len(), |i: int| selection_shown(selections@[i])),
            },
        ) + shown_if(
            rejected_candidates@.len() > 0,
            PieceModel::Bullets {
                name: "phase-output-planning-rejected-list"@,
                items: Seq::new(
                    rejected_candidates@.len(),
                    |i: int|
                        ItemModel {
                            name: "phase-output-planning-rejected"@,
                            lines: seq![
                                named(
                                    "phase-output-planning-rejected-source"@,
                                    rejected_candidates@[i].source_issue_id@,
                                ),
                                named(
                                    "phase-output-planning-rejected-reason"@,
                                    rejected_candidates@[i].reason@,
                                ),
                            ],
                        },
                ),
            },
        ) + shown_if(
            selections@.len() == 0 && rejected_candidates@.len() == 0,
            PieceModel::Paragraph(
                named(
                    "phase-output-planning-empty"@,
                    if summary@.len() == 0 {
                        "No eligible Source Issues selected for this Plan Run."@
                    } else {
                        "No selections."@
                    },
                ),
            ),
        ),
{
    let selected = crate::phase_output_view::selections_of(selections@);
    let list = PieceModel::Bullets {
        name: "phase-output-planning-selections"@,
        items: Seq::new(selections@.len(), |i: int| selection_shown(selections@[i])),
    };
    if selections@.len() > 0 {
        assert(selected[0] =~~= list);
        assert(selected =~= seq![list]);
    }
    let declined = crate::phase_output_view::rejected_of(rejected_candidates@);
    let others = PieceModel::Bullets {
        name: "phase-output-planning-rejected-list"@,
        items: Seq::new(
            rejected_candidates@.len(),
            |i: int|
                ItemModel {
                    name: "phase-output-planning-rejected"@,
                    lines: seq![
                        named(
                            "phase-output-planning-rejected-source"@,
                            rejected_candidates@[i].source_issue_id@,
                        ),
                        named(
                            "phase-output-planning-rejected-reason"@,
                            rejected_candidates@[i].reason@,
                        ),
                    ],
                },
        ),
    };
    if rejected_candidates@.len() > 0 {
        assert(declined[0] =~~= others);
        assert(declined =~= seq![others]);
    }
}

/// A row says which phase it is of and how it ended, and whether this is good; it shows the
/// summary of the body, and says where the body was cut.
pub proof fn law_row_of_an_output(output: PhaseOutputResponse, row: PhaseOutputRowView)
    requires
        call_ensures(phase_output_row, (&output,), row),
    ensures
        row.pill_label@ == output.phase@ + " "@ + output.outcome@,
        row.tone is Verified <==> (output.outcome@ == "ready_for_review"@ || output.outcome@
            == "approved"@ || output.outcome@ == "merged"@ || output.outcome@ == "succeeded"@
            || output.outcome@ == "succeeded_empty"@),
        output.outcome@ == "rejected"@ || output.outcome@ == "failed"@ || output.outcome@
            == "blocked"@ ==> !(row.tone is Pending),
        !(row.tone is Verified) && output.outcome@ != "rejected"@ && output.outcome@ != "failed"@
            && output.outcome@ != "blocked"@ ==> row.tone is Pending,
        !(row.tone is Verified) && !(row.tone is Pending) ==> row.tone is Failed,
        text_field(output.body_json.value@, "summary"@) matches Some(summary) ==> row.summary@
            == summary,
        text_field(output.body_json.value@, "summary"@) is None ==> row.summary@.len() == 0,
        row.truncated is Some <==> unsigned_field(output.body_json.value@, "truncated_at"@) is Some,
        row.truncated matches Some(text) ==> text@ == "[truncated] body was "@ + decimal(
            unsigned_field(output.body_json.value@, "truncated_at"@)->0 as nat,
        ) + " bytes"@,
        output.assignment_id is Some ==> row.name@ == "assignment-phase-output-row"@,
        output.assignment_id is None ==> row.name@ == "plan-run-phase-output-row"@,
        PhaseOutputBody::reads(output.body_json.value@) matches Some(body) ==> row.body@ == body,
{
    reveal_strlit("");
}

// --- The stored form ---

/// A list of texts as it is stored.
pub open spec fn texts_stored(texts: Seq<Seq<char>>) -> JsonModel {
    JsonModel::Array(Seq::new(texts.len(), |i: int| JsonModel::Text(texts[i])))
}

/// The names under which an implementation, a push and a failure are stored.
pub proof fn law_stored_names(
    commits: Seq<Seq<char>>,
    verification: Seq<Seq<char>>,
    gaps: Seq<Seq<char>>,
    summary: Seq<char>,
    fast_forward: bool,
    attempt: u32,
)
    ensures
        PhaseOutputBody::writes(
            BodyModel::Implementation { commits, verification, gaps, summary },
        ) == JsonModel::Object(
            seq![
                ("phase"@, JsonModel::Text("implementation"@)),
                ("commits"@, texts_stored(commits)),
                ("verification"@, texts_stored(verification)),
                ("gaps"@, texts_stored(gaps)),
                ("summary"@, JsonModel::Text(summary)),
            ],
        ),
        PhaseOutputBody::writes(BodyModel::Push { stderr: summary, fast_forward, attempt })
            == JsonModel::Object(
            seq![
                ("phase"@, JsonModel::Text("push"@)),
                ("stderr"@, JsonModel::Text(summary)),
                ("fast_forward"@, JsonModel::Bool(fast_forward)),
                ("attempt"@, JsonModel::Unsigned(attempt as u64)),
            ],
        ),
        PhaseOutputBody::writes(BodyModel::Failed { error: summary, problem_type: None })
            == JsonModel::Object(
            seq![("phase"@, JsonModel::Text("failed"@)), ("error"@, JsonModel::Text(summary))],
        ),
        PhaseOutputBody::writes(
            BodyModel::Merge {
                merged_source_ids: commits,
                verification,
                gaps,
                summary,
                block_reason: None,
            },
        ) == JsonModel::Object(
            seq![
                ("phase"@, JsonModel::Text("merge"@)),
                ("merged_source_ids"@, texts_stored(commits)),
                ("verification"@, texts_stored(verification)),
                ("gaps"@, texts_stored(gaps)),
                ("summary"@, JsonModel::Text(summary)),
            ],
        ),
{
    lemma_texts_stored(commits);
    lemma_texts_stored(verification);
    lemma_texts_stored(gaps);
}

proof fn lemma_texts_stored(texts: Seq<Seq<char>>)
    ensures
        crate::phase_body_format::list_written::<String>(texts) == texts_stored(texts),
{
    let items = texts.map_values(|value: Seq<char>| String::writes(value));
    assert(items =~= Seq::new(texts.len(), |i: int| JsonModel::Text(texts[i])));
}

/// What is stored of one of the others: a selection, a declined candidate and a finding, with
/// a location or without, and the two texts that are there only where they are known.
pub proof fn law_stored_items(
    id: Seq<char>,
    title: Seq<char>,
    branch: Seq<char>,
    text: Seq<char>,
)
    ensures
        PlanningSelection::writes(
            SelectionModel {
                source_issue_id: id,
                title,
                branch,
                selection_summary: text,
            },
        ) == JsonModel::Object(
            seq![
                ("source_issue_id"@, JsonModel::Text(id)),
                ("title"@, JsonModel::Text(title)),
                ("branch"@, JsonModel::Text(branch)),
                ("selection_summary"@, JsonModel::Text(text)),
            ],
        ),
        RejectedPlanningCandidate::writes(RejectionModel { source_issue_id: id, reason: text })
            == JsonModel::Object(
            seq![("source_issue_id"@, JsonModel::Text(id)), ("reason"@, JsonModel::Text(text))],
        ),
        ReviewFinding::writes(FindingModel { location: Some(id), message: text })
            == JsonModel::Object(
            seq![("location"@, JsonModel::Text(id)), ("message"@, JsonModel::Text(text))],
        ),
        ReviewFinding::writes(FindingModel { location: None, message: text }) == JsonModel::Object(
            seq![("message"@, JsonModel::Text(text))],
        ),
        PhaseOutputBody::writes(BodyModel::Failed { error: text, problem_type: Some(id) })
            == JsonModel::Object(
            seq![
                ("phase"@, JsonModel::Text("failed"@)),
                ("error"@, JsonModel::Text(text)),
                ("problem_type"@, JsonModel::Text(id)),
            ],
        ),
{
    assert(Seq::<(Seq<char>, JsonModel)>::empty().push(("location"@, JsonModel::Text(id))).push(
        ("message"@, JsonModel::Text(text)),
    ) =~= seq![("location"@, JsonModel::Text(id)), ("message"@, JsonModel::Text(text))]);
    assert(Seq::<(Seq<char>, JsonModel)>::empty().push(("message"@, JsonModel::Text(text)))
        =~= seq![("message"@, JsonModel::Text(text))]);
    assert(seq![("phase"@, JsonModel::Text("failed"@)), ("error"@, JsonModel::Text(text))].push(
        ("problem_type"@, JsonModel::Text(id)),
    ) =~= seq![
        ("phase"@, JsonModel::Text("failed"@)),
        ("error"@, JsonModel::Text(text)),
        ("problem_type"@, JsonModel::Text(id)),
    ]);
}

/// A finding that is a bare text is a message without a location. One that says neither is not
/// read.
pub proof fn law_bare_finding_is_read(message: Seq<char>, flag: bool)
    ensures
        ReviewFinding::reads(JsonModel::Text(message)) == Some(
            FindingModel { location: None, message },
        ),
        ReviewFinding::reads(JsonModel::Bool(flag)) is None,
        ReviewFinding::reads(JsonModel::Null) is None,
{
}

/// A row of unknown age that has not the stored form reads as a failure: with its error, and
/// where it has none, with the whole row; and with its problem type, where it has one.
pub proof fn law_unknown_row_is_a_failure(document: JsonDocument, body: PhaseOutputBody)
    requires
        call_ensures(PhaseOutputBody::from_legacy_value, (&document,), body),
    ensures
        PhaseOutputBody::reads(document.value@) matches Some(read) ==> body@ == read,
        PhaseOutputBody::reads(document.value@) is None ==> (body matches PhaseOutputBody::Failed {
            error,
            problem_type,
        } && (text_field(document.value@, "error"@) matches Some(said) ==> error@ == said) && (
        text_field(document.value@, "error"@) is None ==> error@ == json_compact(document.text@))
            && opt_view(problem_type) == text_field(document.value@, "problem_type"@)),
{
}

} // verus!
