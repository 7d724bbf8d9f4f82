use demo_things::action::{
    clone_actions, complete_action, delete_action, delete_fade_action, get_actions,
    get_fade_action, new_fade, position, post_fade_action, show, ActionName, ActionStatus,
    ActionStatusStatus, StoredAction, StoredActionType,
};
use demo_things::clock::Timestamp;
use demo_things::door::{action_lock, DoorError};

const ID: u128 = 0x0123_4567_89ab_4def_8123_4567_89ab_cdef;

fn at(unix_nanos: i128) -> Timestamp {
    Timestamp { unix_nanos }
}

fn status<I>(action: &StoredAction<I>) -> &ActionStatus<I> {
    let StoredActionType::Fade(status) = &action.ty;
    status
}

fn fades(ids: &[u128]) -> Vec<StoredAction<u8>> {
    ids.iter()
        .map(|&id| new_fade(id, id as u8, at(id as i128)))
        .collect()
}

fn ids(actions: &[StoredAction<u8>]) -> Vec<u128> {
    actions.iter().map(|action| action.id).collect()
}

#[test]
fn new_fade_is_pending_under_its_identifier() {
    let action = new_fade(ID, 7u8, at(5));
    assert_eq!(action.id, ID);
    let status = status(&action);
    assert_eq!(status.status, ActionStatusStatus::Pending);
    assert_eq!(status.output, Some(7));
    assert!(status.error.is_none());
    assert_eq!(
        status.href.as_deref(),
        Some("/actions/fade/01234567-89ab-4def-8123-456789abcdef")
    );
    assert_eq!(status.time_requested, Some(at(5)));
    assert_eq!(status.time_ended, None);
    assert_eq!(ActionStatusStatus::default(), ActionStatusStatus::Pending);
}

#[test]
fn fades_have_places_of_their_own() {
    let (a, b) = (new_fade(1, 0u8, at(0)), new_fade(2, 0u8, at(0)));
    assert_ne!(status(&a).href, status(&b).href);
}

#[test]
fn position_is_that_of_the_first() {
    let actions = fades(&[4, 5, 5, 6]);
    assert_eq!(position(&actions, 5), Some(1));
    assert_eq!(position(&actions, 6), Some(3));
    assert_eq!(position(&actions, 7), None);
}

#[test]
fn deleting_puts_the_last_in_its_place() {
    let mut actions = fades(&[1, 2, 3, 4]);
    assert!(delete_action(&mut actions, ActionName::Fade, 2));
    assert_eq!(ids(&actions), vec![1, 4, 3]);
    assert!(!delete_action(&mut actions, ActionName::Fade, 2));
    assert_eq!(ids(&actions), vec![1, 4, 3]);
    assert!(delete_action(&mut actions, ActionName::Fade, 3));
    assert_eq!(ids(&actions), vec![1, 4]);
}

#[test]
fn cancelled_action_is_not_found() {
    let mut actions = fades(&[1, 2]);
    assert_eq!(delete_fade_action(delete_action(&mut actions, ActionName::Fade, 1)), 204);
    let (code, body) = get_fade_action(&actions, 1);
    assert_eq!(code, 404);
    assert!(body.is_none());
    assert_eq!(delete_fade_action(delete_action(&mut actions, ActionName::Fade, 1)), 404);
    assert_eq!(get_fade_action(&actions, 2).0, 200);
}

#[test]
fn pending_action_hides_its_output() {
    let actions = fades(&[9]);
    let (code, body) = get_fade_action(&actions, 9);
    assert_eq!(code, 200);
    let body = body.unwrap();
    assert_eq!(body.id, 9);
    let shown = status(&body);
    assert_eq!(shown.status, ActionStatusStatus::Pending);
    assert_eq!(shown.output, None);
    assert_eq!(shown.href, status(&actions[0]).href);
    assert_eq!(shown.time_requested, Some(at(9)));
    assert_eq!(shown.time_ended, None);
}

#[test]
fn completed_action_shows_its_output() {
    let mut actions = fades(&[8, 9]);
    assert!(complete_action(&mut actions, 9, at(100)));
    assert!(!complete_action(&mut actions, 10, at(100)));
    let body = get_fade_action(&actions, 9).1.unwrap();
    let shown = status(&body);
    assert_eq!(shown.status, ActionStatusStatus::Completed);
    assert_eq!(shown.output, Some(9));
    assert_eq!(shown.time_ended, Some(at(100)));
    assert!(shown.error.is_none());
    assert_eq!(status(&actions[0]).status, ActionStatusStatus::Pending);
    assert_eq!(ids(&actions), vec![8, 9]);
}

#[test]
fn failed_action_shows_its_error() {
    let problem = action_lock(Err(DoorError::OpenDoor)).1;
    let failed = ActionStatus {
        status: ActionStatusStatus::Failed,
        output: Some(1u8),
        error: problem,
        href: None,
        time_requested: Some(at(1)),
        time_ended: Some(at(2)),
    };
    let shown = show(&failed);
    assert_eq!(shown.status, ActionStatusStatus::Failed);
    assert_eq!(shown.output, None);
    assert_eq!(shown.error, failed.error);
    assert_eq!(
        shown.error.unwrap().title.as_deref(),
        Some("cannot lock door: cannot lock or unlock an open door")
    );
    assert_eq!(shown.time_ended, Some(at(2)));
}

#[test]
fn running_action_is_shown_like_a_pending_one() {
    let running = ActionStatus {
        status: ActionStatusStatus::Running,
        output: Some(1u8),
        error: action_lock(Err(DoorError::OpenDoor)).1,
        href: Some("here".to_owned()),
        time_requested: None,
        time_ended: Some(at(2)),
    };
    let shown = show(&running);
    assert_eq!(shown.status, ActionStatusStatus::Running);
    assert_eq!(shown.output, None);
    assert!(shown.error.is_none());
    assert_eq!(shown.href.as_deref(), Some("here"));
    assert_eq!(shown.time_ended, None);
}

#[test]
fn creation_names_the_place() {
    let response = post_fade_action(new_fade(ID, 7u8, at(5)));
    assert_eq!(response.status, 201);
    assert_eq!(
        response.location.as_deref(),
        Some("/actions/fade/01234567-89ab-4def-8123-456789abcdef")
    );
    assert_eq!(response.body.href, response.location);
    assert_eq!(response.body.output, Some(Some(7)));
    assert_eq!(response.body.status, ActionStatusStatus::Pending);
    assert_eq!(response.body.time_requested, None);
}

#[test]
fn creation_without_a_place() {
    let mut action = new_fade(ID, 7u8, at(5));
    if let Some(fade) = action.ty.to_fade_mut() {
        fade.href = None;
        fade.output = None;
    }
    let response = post_fade_action(action);
    assert_eq!(response.location, None);
    assert_eq!(response.body.output, Some(None));
}

#[test]
fn actions_are_listed_by_kind() {
    assert!(get_actions(&fades(&[])).is_empty());
    let groups = get_actions(&fades(&[3, 1, 2]));
    assert_eq!(groups.len(), 1);
    assert_eq!(groups[0].name, ActionName::Fade);
    assert_eq!(ids(&groups[0].actions), vec![3, 1, 2]);
    assert_eq!(groups[0].actions[0].ty.name(), "fade");
}

#[test]
fn copies_of_actions_are_equal() {
    let actions = fades(&[3, 1]);
    let copy = clone_actions(&actions);
    assert_eq!(ids(&copy), vec![3, 1]);
    assert_eq!(status(&copy[1]).href, status(&actions[1]).href);
    assert_eq!(actions[0].to_fade().map(|action| action.id), Some(3));
    let (output, href) = copy.into_iter().next().unwrap().ty.into_output_href().unwrap();
    assert_eq!(output, Some(3));
    assert!(href.is_some());
}
