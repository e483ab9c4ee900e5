use tbgui::content::{Content, Message};
use tbgui::model::sample::{create_sample_tasks, Sample, Status, TaskMessage};
use tbgui::ssh::JobSubmissionRequest;

fn three_samples() -> Vec<Sample> {
    create_sample_tasks(vec!["A_1".to_string(), "B_1".to_string(), "C_1".to_string()])
}

#[test]
fn new_list_is_empty() {
    let content = Content::new();
    assert!(content.is_empty());
    assert_eq!(content.len(), 0);
    assert!(content.items().is_empty());
}

#[test]
fn a_listing_replaces_the_list() {
    let mut content = Content::new();
    let first = three_samples();
    assert!(content.update(Message::SetItems(first.clone())).is_empty());
    assert_eq!(content.items(), &first);
    assert_eq!(content.len(), 3);
    let second = create_sample_tasks(vec!["X_1".to_string()]);
    assert!(content.update(Message::SetItems(second.clone())).is_empty());
    assert_eq!(content.items(), &second);
    assert!(content.update(Message::SetItems(Vec::new())).is_empty());
    assert!(content.is_empty());
}

#[test]
fn completing_a_sample_is_reported() {
    let mut content = Content::new();
    let samples = three_samples();
    content.update(Message::SetItems(samples.clone()));
    let reports = content.update(Message::Complete(1, true));
    let mut expected = samples[1].clone();
    expected.status = Status::Completed;
    assert_eq!(reports, vec![TaskMessage::Update(expected.clone())]);
    assert_eq!(content.items()[0], samples[0]);
    assert_eq!(content.items()[1], expected);
    assert_eq!(content.items()[2], samples[2]);
    let reports = content.update(Message::Complete(1, false));
    assert_eq!(reports, vec![TaskMessage::Update(samples[1].clone())]);
    assert_eq!(content.items(), &samples);
}

#[test]
fn a_message_for_a_missing_place_changes_nothing() {
    let mut content = Content::new();
    assert!(content.update(Message::Complete(0, true)).is_empty());
    assert!(content.update(Message::Check(0, true)).is_empty());
    assert!(content.is_empty());
    let samples = three_samples();
    content.update(Message::SetItems(samples.clone()));
    assert!(content.update(Message::Complete(3, true)).is_empty());
    assert!(content.update(Message::Check(usize::MAX, true)).is_empty());
    assert_eq!(content.items(), &samples);
}

#[test]
fn checked_samples_make_the_job() {
    let mut content = Content::new();
    content.update(Message::SetItems(three_samples()));
    assert!(content.update(Message::Check(2, true)).is_empty());
    assert!(content.update(Message::Check(0, true)).is_empty());
    assert!(content.items()[0].checked);
    assert!(!content.items()[1].checked);
    assert!(content.items()[2].checked);
    let request = JobSubmissionRequest::from_samples(content.items());
    assert_eq!(request.checked_count, 2);
    assert_eq!(request.samples, "A,C");
    content.update(Message::Check(0, false));
    let request = JobSubmissionRequest::from_samples(content.items());
    assert_eq!(request.checked_count, 1);
    assert_eq!(request.samples, "C");
}

#[test]
fn a_new_listing_forgets_the_marks() {
    let mut content = Content::new();
    content.update(Message::SetItems(three_samples()));
    content.update(Message::Check(0, true));
    content.update(Message::Complete(0, true));
    content.update(Message::SetItems(three_samples()));
    for sample in content.items() {
        assert!(!sample.checked);
        assert_eq!(sample.status, Status::NotStarted);
    }
}
