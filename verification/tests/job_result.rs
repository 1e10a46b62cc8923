use presenter::job::{Job, Output, Status};
use presenter::job_result::JobResult;
use presenter::node::{elem, text_node, Node, Tag};

fn nodes_eq(a: &Node, b: &Node) -> bool {
    a.tag == b.tag
        && a.class == b.class
        && a.hidden == b.hidden
        && a.text == b.text
        && a.children.len() == b.children.len()
        && a.children.iter().zip(b.children.iter()).all(|(x, y)| nodes_eq(x, y))
}

fn succeeded_job(html: Option<&str>) -> Job {
    Job { status: Status::Succeeded(Output { html: html.map(|h| h.to_owned()) }) }
}

fn failed_job(html: Option<&str>) -> Job {
    Job { status: Status::Failed(Output { html: html.map(|h| h.to_owned()) }) }
}

#[test]
fn new_keeps_the_job_reference() {
    let job = succeeded_job(Some("x"));
    let view = JobResult::new(&job);
    assert!(matches!(view.job.status, Status::Succeeded(_)));
}

#[test]
fn succeeded_render_stages_raw_content() {
    let job = succeeded_job(Some("<b>ok</b>"));
    let r = JobResult::new(&job).render();
    assert_eq!(r.tag, Tag::Div);
    assert_eq!(r.class, "job-result success");
    assert!(!r.hidden);
    assert_eq!(r.children.len(), 3);
    let staging = &r.children[2];
    assert_eq!(staging.tag, Tag::Section);
    assert_eq!(staging.class, "staging");
    assert!(staging.hidden);
    assert_eq!(staging.children.len(), 1);
    assert_eq!(staging.children[0].tag, Tag::Text);
    assert_eq!(staging.children[0].text, "<b>ok</b>");
    let body = &r.children[1];
    assert_eq!(body.tag, Tag::Section);
    assert_eq!(body.class, "body");
    assert!(body.children.is_empty());
}

#[test]
fn succeeded_header_says_success() {
    let job = succeeded_job(Some("<b>ok</b>"));
    let header = JobResult::new(&job).header();
    assert_eq!(header.tag, Tag::Header);
    assert_eq!(header.children.len(), 1);
    let wrap = &header.children[0];
    assert_eq!(wrap.tag, Tag::Div);
    let status = &wrap.children[0];
    assert_eq!(status.class, "status");
    let inner = &status.children[0];
    assert_eq!(inner.tag, Tag::Div);
    assert_eq!(inner.children[0].tag, Tag::Text);
    assert_eq!(inner.children[0].text, "Success!");
}

#[test]
fn failed_render_with_absent_output_stages_empty_content() {
    let job = failed_job(None);
    let r = JobResult::new(&job).render();
    assert_eq!(r.class, "job-result failed");
    let staging = &r.children[2];
    assert_eq!(staging.class, "staging");
    assert_eq!(staging.children.len(), 1);
    assert_eq!(staging.children[0].text, "");
    let header = &r.children[0];
    let label = &header.children[0].children[0].children[0].children[0];
    assert_eq!(label.tag, Tag::Text);
    assert_eq!(label.text, "Failed!");
}

#[test]
fn failed_render_with_empty_output_stages_empty_content() {
    let job = failed_job(Some(""));
    let r = JobResult::new(&job).render();
    let staging = &r.children[2];
    assert_eq!(staging.children[0].text, "");
}

#[test]
fn body_starts_empty() {
    let job = succeeded_job(Some("<p>text</p>"));
    let body = JobResult::new(&job).body();
    assert_eq!(body.tag, Tag::Section);
    assert_eq!(body.class, "body");
    assert!(!body.hidden);
    assert!(body.children.is_empty());
    assert_eq!(body.text, "");
}

#[test]
fn staging_is_hidden_and_keeps_markup_as_data() {
    let job = succeeded_job(Some("<script>alert(1)</script>"));
    let staging = JobResult::new(&job).staging();
    assert!(staging.hidden);
    assert_eq!(staging.children[0].text, "<script>alert(1)</script>");
}

#[test]
fn rerendering_the_same_job_is_deterministic() {
    let job = succeeded_job(Some("<b>ok</b>"));
    let view = JobResult::new(&job);
    let first = view.render();
    let second = view.render();
    assert!(nodes_eq(&first, &second));
    let third = JobResult::new(&job).render();
    assert!(nodes_eq(&first, &third));
}

#[test]
fn rerendering_a_failed_job_is_deterministic() {
    let job = failed_job(None);
    let first = JobResult::new(&job).render();
    let second = JobResult::new(&job).render();
    assert!(nodes_eq(&first, &second));
    assert!(nodes_eq(&first.children[0], &second.children[0]));
    assert!(nodes_eq(&first.children[2], &second.children[2]));
}

#[test]
fn text_node_stores_data_unchanged() {
    let n = text_node("<em>raw</em>".to_owned());
    assert_eq!(n.tag, Tag::Text);
    assert_eq!(n.text, "<em>raw</em>");
    assert_eq!(n.class, "");
    assert!(!n.hidden);
    assert!(n.children.is_empty());
}

#[test]
fn elem_keeps_its_parts() {
    let child = text_node("x".to_owned());
    let n = elem(Tag::Section, "staging".to_owned(), true, vec![child]);
    assert_eq!(n.tag, Tag::Section);
    assert_eq!(n.class, "staging");
    assert!(n.hidden);
    assert_eq!(n.text, "");
    assert_eq!(n.children.len(), 1);
    assert_eq!(n.children[0].text, "x");
}
