//! A visual representation of the result of a job.
//!
//! The view renders in two decoupled stages. This crate owns the first
//! stage: from a terminal job it deterministically produces a header, an
//! empty body, and a hidden staging area that carries the job's raw
//! payload as plain character data. A separate, external step later reads
//! the staging area, sanitizes and parses its content, and writes the
//! trusted result into the body; that step is outside this crate on
//! purpose, so the untrusted-content parsing stays out of the render path
//! and can be swapped or audited independently.

use crate::job::{spec_is_terminal, spec_payload, Job, Status, StatusView};
use crate::node::{
    elem, lemma_nodes_view_elems, node_view, nodes_view, spec_elem_view, spec_text_view, text_node,
    Node, NodeView, Tag,
};
use vstd::prelude::*;

verus! {

/// The fixed header label of a terminal job: "Success!" for a job that
/// succeeded, "Failed!" for one that failed.
pub open spec fn spec_title(s: StatusView) -> Seq<char>
    recommends
        spec_is_terminal(s),
{
    if s is Succeeded {
        "Success!"@
    } else {
        "Failed!"@
    }
}

/// The style class of the whole job-result container, encoding success
/// against failure for external styling.
pub open spec fn spec_class(s: StatusView) -> Seq<char>
    recommends
        spec_is_terminal(s),
{
    if s is Succeeded {
        "job-result success"@
    } else {
        "job-result failed"@
    }
}

/// The header of the job result: a `header` element wrapping the fixed
/// status label.
pub open spec fn spec_header_view(s: StatusView) -> NodeView {
    spec_elem_view(
        Tag::Header,
        Seq::<char>::empty(),
        false,
        seq![
            spec_elem_view(
                Tag::Div,
                Seq::<char>::empty(),
                false,
                seq![
                    spec_elem_view(
                        Tag::Div,
                        "status"@,
                        false,
                        seq![
                            spec_elem_view(
                                Tag::Div,
                                Seq::<char>::empty(),
                                false,
                                seq![spec_text_view(spec_title(s))],
                            ),
                        ],
                    ),
                ],
            ),
        ],
    )
}

/// The body of the job result: an empty `body`-classed section, never
/// populated by this render pass; it exists purely as the promotion
/// target of the external sanitize step.
pub open spec fn spec_body_view() -> NodeView {
    spec_elem_view(Tag::Section, "body"@, false, Seq::<NodeView>::empty())
}

/// The staging area of the job result: a hidden `staging`-classed section
/// whose sole child is a text node carrying the raw payload, stored as
/// data and not interpreted as markup.
pub open spec fn spec_staging_view(s: StatusView) -> NodeView {
    spec_elem_view(Tag::Section, "staging"@, true, seq![spec_text_view(spec_payload(s))])
}

/// The whole job-result view: one container whose class encodes success
/// against failure, holding header, body and staging area in order.
pub open spec fn spec_render_view(s: StatusView) -> NodeView {
    spec_elem_view(
        Tag::Div,
        spec_class(s),
        false,
        seq![spec_header_view(s), spec_body_view(), spec_staging_view(s)],
    )
}

/// The `JobResult` component.
pub struct JobResult<'a> {
    /// A reference to the job for which the results are presented.
    pub job: &'a Job,
}

impl<'a> JobResult<'a> {
    /// Create a new `JobResult` component with the provided job reference.
    pub fn new(job: &'a Job) -> (r: Self)
        ensures
            r.job == job,
    {
        JobResult { job }
    }

    /// The header of the job result: "Success!" or "Failed!".
    ///
    /// The view is only ever invoked once the job has reached a terminal
    /// status; rendering any other status is a precondition violation.
    pub fn header(&self) -> (r: Node)
        requires
            spec_is_terminal(self.job@),
        ensures
            r@ == spec_header_view(self.job@),
    {
        let title: &str = match &self.job.status {
            Status::Succeeded(_) => "Success!",
            Status::Failed(_) => "Failed!",
            _ => vstd::pervasive::unreached(),
        };
        let mut status_children: Vec<Node> = Vec::new();
        status_children.push(text_node(title.to_owned()));
        let inner = elem(Tag::Div, String::new(), false, status_children);
        let mut title_children: Vec<Node> = Vec::new();
        title_children.push(inner);
        let status_block = elem(Tag::Div, "status".to_owned(), false, title_children);
        let mut wrap_children: Vec<Node> = Vec::new();
        wrap_children.push(status_block);
        let wrap = elem(Tag::Div, String::new(), false, wrap_children);
        let mut header_children: Vec<Node> = Vec::new();
        header_children.push(wrap);
        let r = elem(Tag::Header, String::new(), false, header_children);
        proof {
            let ghost s = self.job@;
            let ghost label = spec_text_view(spec_title(s));
            let ghost label_wrap = spec_elem_view(Tag::Div, Seq::<char>::empty(), false, seq![label]);
            let ghost status_view = spec_elem_view(Tag::Div, "status"@, false, seq![label_wrap]);
            let ghost wrap_view = spec_elem_view(Tag::Div, Seq::<char>::empty(), false, seq![status_view]);
            lemma_nodes_view_elems(status_children@);
            assert(nodes_view(status_children@) =~~= seq![label]);
            lemma_nodes_view_elems(title_children@);
            assert(nodes_view(title_children@) =~~= seq![label_wrap]);
            lemma_nodes_view_elems(wrap_children@);
            assert(nodes_view(wrap_children@) =~~= seq![status_view]);
            lemma_nodes_view_elems(header_children@);
            assert(nodes_view(header_children@) =~~= seq![wrap_view]);
            assert(r@ =~~= spec_header_view(s));
        }
        r
    }

    /// The job result output content: an initially empty container, the
    /// promotion target of the external sanitize step.
    pub fn body(&self) -> (r: Node)
        ensures
            r@ == spec_body_view(),
    {
        let r = elem(Tag::Section, "body".to_owned(), false, Vec::<Node>::new());
        proof {
            assert(r@ =~~= spec_body_view());
        }
        r
    }

    /// The staging area for the job result.
    ///
    /// This is a hidden container that holds the raw output payload as
    /// plain text, an empty string when the output has no content. A
    /// separate controller action is responsible for parsing this content
    /// and turning it into actual visible markup on the body.
    pub fn staging(&self) -> (r: Node)
        requires
            spec_is_terminal(self.job@),
        ensures
            r@ == spec_staging_view(self.job@),
    {
        let payload: String = match &self.job.status {
            Status::Succeeded(o) | Status::Failed(o) => match &o.html {
                Some(h) => h.clone(),
                None => String::new(),
            },
            _ => vstd::pervasive::unreached(),
        };
        assert(payload@ == spec_payload(self.job@));
        let mut staging_children: Vec<Node> = Vec::new();
        staging_children.push(text_node(payload));
        let r = elem(Tag::Section, "staging".to_owned(), true, staging_children);
        proof {
            lemma_nodes_view_elems(staging_children@);
            assert(nodes_view(staging_children@) =~~= seq![spec_text_view(spec_payload(self.job@))]);
            assert(r@ =~~= spec_staging_view(self.job@));
        }
        r
    }

    /// Render the whole job-result view: header, body and staging area in
    /// one container whose class encodes success against failure.
    pub fn render(&self) -> (r: Node)
        requires
            spec_is_terminal(self.job@),
        ensures
            r@ == spec_render_view(self.job@),
    {
        let class: &str = match &self.job.status {
            Status::Succeeded(_) => "job-result success",
            Status::Failed(_) => "job-result failed",
            _ => vstd::pervasive::unreached(),
        };
        let mut children: Vec<Node> = Vec::new();
        children.push(self.header());
        children.push(self.body());
        children.push(self.staging());
        let r = elem(Tag::Div, class.to_owned(), false, children);
        proof {
            lemma_nodes_view_elems(children@);
            assert(nodes_view(children@) =~~= seq![
                spec_header_view(self.job@),
                spec_body_view(),
                spec_staging_view(self.job@),
            ]);
            assert(r@ =~~= spec_render_view(self.job@));
        }
        r
    }
}

/// Re-rendering the same job twice produces byte-identical output: the
/// rendered view is a function of the job's value alone, so two render
/// results of jobs with equal views are equal, header and staging
/// included.
pub proof fn lemma_render_deterministic(j1: Job, j2: Job, r1: Node, r2: Node)
    requires
        j1@ == j2@,
        node_view(r1) == spec_render_view(j1@),
        node_view(r2) == spec_render_view(j2@),
    ensures
        node_view(r1) == node_view(r2),
{
}

} // verus!
