//! Actions that run for a while: how they are recorded, queried, completed and cancelled.
use http_api_problem::HttpApiProblem;

use crate::clock::{Span, Timestamp};
use crate::ident::{hyphenated, hyphenated_text, law_hyphenated_text_is_injective};
use crate::status_code::{CREATED, NOT_FOUND, NO_CONTENT, OK};
use vstd::prelude::*;
use vstd::string::*;

verus! {

/// How far an action has come.
#[derive(Clone, Copy, Debug, PartialEq, Eq, Structural)]
pub enum ActionStatusStatus {
    Pending,
    Running,
    Completed,
    Failed,
}

impl Default for ActionStatusStatus {
    fn default() -> (status: Self)
        ensures
            status == ActionStatusStatus::Pending,
    {
        ActionStatusStatus::Pending
    }
}

/// What is known of an action.
#[derive(Debug)]
pub struct ActionStatus<Output> {
    pub status: ActionStatusStatus,
    pub output: Option<Output>,
    pub error: Option<HttpApiProblem>,
    pub href: Option<String>,
    pub time_requested: Option<Timestamp>,
    pub time_ended: Option<Timestamp>,
}

impl<Output: Copy> Clone for ActionStatus<Output> {
    fn clone(&self) -> (copy: Self)
        ensures
            copy == *self,
    {
        ActionStatus {
            status: self.status,
            output: self.output,
            error: clone_error(&self.error),
            href: clone_href(&self.href),
            time_requested: self.time_requested,
            time_ended: self.time_ended,
        }
    }
}

fn clone_error(error: &Option<HttpApiProblem>) -> (copy: Option<HttpApiProblem>)
    ensures
        copy == *error,
{
    match error {
        Some(error) => Some(error.clone()),
        None => None,
    }
}

fn clone_href(href: &Option<String>) -> (copy: Option<String>)
    ensures
        copy == *href,
{
    match href {
        Some(href) => Some(href.clone()),
        None => None,
    }
}

/// The kinds of action.
#[derive(Clone, Copy, Debug, PartialEq, Eq, Structural)]
pub enum ActionName {
    Fade,
}

/// An action by its kind.
#[derive(Debug)]
pub enum StoredActionType<Input> {
    Fade(ActionStatus<Input>),
}

impl<Input: Copy> Clone for StoredActionType<Input> {
    fn clone(&self) -> (copy: Self)
        ensures
            copy == *self,
    {
        match self {
            StoredActionType::Fade(fade) => StoredActionType::Fade(fade.clone()),
        }
    }
}

impl<Input> StoredActionType<Input> {
    /// The kind of the action.
    pub open spec fn kind(self) -> ActionName {
        match self {
            StoredActionType::Fade(_) => ActionName::Fade,
        }
    }

    pub fn action_name(&self) -> (name: ActionName)
        ensures
            name == self.kind(),
    {
        match self {
            StoredActionType::Fade(_) => ActionName::Fade,
        }
    }

    /// The fade, where the action is one.
    pub fn to_fade_mut(&mut self) -> (fade: Option<&mut ActionStatus<Input>>)
        ensures
            match *old(self) {
                StoredActionType::Fade(status) => {
                    &&& fade matches Some(fade)
                    &&& *fade == status
                    &&& *final(self) == StoredActionType::Fade(*final(fade))
                },
            },
    {
        match self {
            StoredActionType::Fade(fade) => Some(fade),
        }
    }

    /// The name under which actions of this kind are listed.
    pub fn name(&self) -> (name: &'static str)
        ensures
            name@ == match self.kind() {
                ActionName::Fade => "fade"@,
            },
    {
        match self {
            StoredActionType::Fade(_) => "fade",
        }
    }

    /// What the action is to lead to, and where it can be queried.
    pub fn into_output_href(self) -> (parts: Option<(Option<Input>, Option<String>)>)
        ensures
            match self {
                StoredActionType::Fade(status) => parts == Some((status.output, status.href)),
            },
    {
        match self {
            StoredActionType::Fade(ActionStatus { output, href, .. }) => Some((output, href)),
        }
    }
}

/// An action with its identifier.
#[derive(Debug)]
pub struct StoredAction<Input> {
    pub id: u128,
    pub ty: StoredActionType<Input>,
}

impl<Input: Copy> Clone for StoredAction<Input> {
    fn clone(&self) -> (copy: Self)
        ensures
            copy == *self,
    {
        StoredAction { id: self.id, ty: self.ty.clone() }
    }
}

impl<Input> StoredAction<Input> {
    /// The action, where it is a fade.
    pub fn to_fade(&self) -> (fade: Option<&Self>)
        ensures
            fade == match self.ty.kind() {
                ActionName::Fade => Some(self),
            },
    {
        match &self.ty {
            StoredActionType::Fade(_) => Some(self),
        }
    }
}

/// Where the fade with the given identifier can be queried.
pub open spec fn fade_href(id: u128) -> Seq<char> {
    "/actions/fade/"@ + hyphenated_text(id)
}

/// Whether `action` is the record of a fade that has just been requested.
pub open spec fn is_new_fade<Input>(
    action: StoredAction<Input>,
    id: u128,
    output: Input,
    time_requested: Timestamp,
) -> bool {
    &&& action.id == id
    &&& match action.ty {
        StoredActionType::Fade(fade) => {
            &&& fade.status == ActionStatusStatus::Pending
            &&& fade.output == Some(output)
            &&& fade.error is None
            &&& fade.href is Some
            &&& fade.href->0@ == fade_href(id)
            &&& fade.time_requested == Some(time_requested)
            &&& fade.time_ended is None
        },
    }
}

/// Records a fade that has just been requested.
pub fn new_fade<Input>(id: u128, output: Input, time_requested: Timestamp) -> (action: StoredAction<
    Input,
>)
    ensures
        is_new_fade(action, id, output, time_requested),
{
    let mut href = "/actions/fade/".to_owned();
    href.append(hyphenated(id).as_str());
    StoredAction {
        id,
        ty: StoredActionType::Fade(
            ActionStatus {
                status: ActionStatusStatus::Pending,
                output: Some(output),
                error: None,
                href: Some(href),
                time_requested: Some(time_requested),
                time_ended: None,
            },
        ),
    }
}

/// When an action is to be completed.
#[derive(Clone, Copy, Debug, PartialEq, Eq)]
pub struct Completion {
    pub id: u128,
    pub wait: Span,
}

/// Whether the first of `actions` with the given identifier is at `index`.
pub open spec fn is_first<Input>(actions: Seq<StoredAction<Input>>, id: u128, index: int) -> bool {
    &&& 0 <= index < actions.len()
    &&& actions[index].id == id
    &&& forall|i: int| 0 <= i < index ==> (#[trigger] actions[i]).id != id
}

/// Whether one of `actions` has the given identifier.
pub open spec fn has_action<Input>(actions: Seq<StoredAction<Input>>, id: u128) -> bool {
    exists|i: int| 0 <= i < actions.len() && (#[trigger] actions[i]).id == id
}

/// The place of the first of `actions` with the given identifier.
pub fn position<Input>(actions: &Vec<StoredAction<Input>>, id: u128) -> (index: Option<usize>)
    ensures
        match index {
            Some(index) => is_first(actions@, id, index as int),
            None => !has_action(actions@, id),
        },
{
    let mut index: usize = 0;
    while index < actions.len()
        invariant
            index <= actions.len(),
            forall|i: int| 0 <= i < index ==> (#[trigger] actions@[i]).id != id,
        decreases actions.len() - index,
    {
        if actions[index].id == id {
            return Some(index);
        }
        index += 1;
    }
    None
}

/// What deleting the first action with the given identifier leaves: the last action takes its
/// place.
pub open spec fn without_first<Input>(
    actions: Seq<StoredAction<Input>>,
    id: u128,
    after: Seq<StoredAction<Input>>,
) -> bool {
    if has_action(actions, id) {
        exists|index: int|
            #![trigger is_first(actions, id, index)]
            is_first(actions, id, index) && after == actions.update(
                index,
                actions.last(),
            ).drop_last()
    } else {
        after == actions
    }
}

/// Forgets the first action of the given kind with the given identifier, and tells whether there
/// was one. The last action takes its place.
pub fn delete_action<Input>(actions: &mut Vec<StoredAction<Input>>, name: ActionName, id: u128) -> (
    removed: bool)
    ensures
        match name {
            ActionName::Fade => {
                &&& removed == has_action(old(actions)@, id)
                &&& without_first(old(actions)@, id, final(actions)@)
            },
        },
{
    let index = match name {
        ActionName::Fade => position(actions, id),
    };
    match index {
        Some(index) => {
            let _ = actions.swap_remove(index);
            assert(is_first(old(actions)@, id, index as int));
            assert(actions@ == old(actions)@.update(
                index as int,
                old(actions)@.last(),
            ).drop_last());
            true
        },
        None => false,
    }
}

/// The record of a fade once it has been completed at the given time.
pub open spec fn completed<Input>(action: StoredAction<Input>, now: Timestamp) -> StoredAction<
    Input,
> {
    match action.ty {
        StoredActionType::Fade(fade) => StoredAction {
            id: action.id,
            ty: StoredActionType::Fade(
                ActionStatus {
                    status: ActionStatusStatus::Completed,
                    time_ended: Some(now),
                    ..fade
                },
            ),
        },
    }
}

/// What completing the first action with the given identifier makes of the actions.
pub open spec fn with_first_completed<Input>(
    actions: Seq<StoredAction<Input>>,
    id: u128,
    now: Timestamp,
    after: Seq<StoredAction<Input>>,
) -> bool {
    if has_action(actions, id) {
        exists|index: int|
            #![trigger is_first(actions, id, index)]
            is_first(actions, id, index) && after == actions.update(
                index,
                completed(actions[index], now),
            )
    } else {
        after == actions
    }
}

/// Completes the first action with the given identifier, and tells whether there was one.
pub fn complete_action<Input>(
    actions: &mut Vec<StoredAction<Input>>,
    id: u128,
    now: Timestamp,
) -> (found: bool)
    ensures
        found == has_action(old(actions)@, id),
        with_first_completed(old(actions)@, id, now, final(actions)@),
{
    match position(actions, id) {
        Some(index) => {
            if let Some(action) = actions[index].ty.to_fade_mut() {
                action.time_ended = Some(now);
                action.status = ActionStatusStatus::Completed;
            }
            assert(is_first(old(actions)@, id, index as int));
            assert(actions@ == old(actions)@.update(
                index as int,
                completed(old(actions)@[index as int], now),
            ));
            true
        },
        None => false,
    }
}

/// What a query shows of an action. The output appears once the action has completed, the error
/// once it has failed, and the time of its end in either case.
pub open spec fn shown<Output>(action: ActionStatus<Output>) -> ActionStatus<Output> {
    let has_ended = action.status == ActionStatusStatus::Completed || action.status
        == ActionStatusStatus::Failed;
    ActionStatus {
        status: action.status,
        output: if action.status == ActionStatusStatus::Completed {
            action.output
        } else {
            None
        },
        error: if action.status == ActionStatusStatus::Failed {
            action.error
        } else {
            None
        },
        href: action.href,
        time_requested: action.time_requested,
        time_ended: if has_ended {
            action.time_ended
        } else {
            None
        },
    }
}

/// What a query shows of an action.
pub fn show<Output: Copy>(action: &ActionStatus<Output>) -> (out: ActionStatus<Output>)
    ensures
        out == shown(*action),
{
    match action.status {
        ActionStatusStatus::Pending | ActionStatusStatus::Running => ActionStatus {
            status: action.status,
            output: None,
            error: None,
            href: clone_href(&action.href),
            time_requested: action.time_requested,
            time_ended: None,
        },
        ActionStatusStatus::Completed => ActionStatus {
            status: action.status,
            output: action.output,
            error: None,
            href: clone_href(&action.href),
            time_requested: action.time_requested,
            time_ended: action.time_ended,
        },
        ActionStatusStatus::Failed => ActionStatus {
            status: action.status,
            output: None,
            error: clone_error(&action.error),
            href: clone_href(&action.href),
            time_requested: action.time_requested,
            time_ended: action.time_ended,
        },
    }
}

/// Whether `response` is the status code and the body for a query of the fade with the given
/// identifier.
pub open spec fn is_query_response<Input>(
    actions: Seq<StoredAction<Input>>,
    id: u128,
    response: (u16, Option<StoredAction<Input>>),
) -> bool {
    if has_action(actions, id) {
        exists|index: int|
            #![trigger is_first(actions, id, index)]
            is_first(actions, id, index) && match actions[index].ty {
                StoredActionType::Fade(fade) => response == (
                    OK,
                    Some(StoredAction { id, ty: StoredActionType::Fade(shown(fade)) }),
                ),
            }
    } else {
        response == (NOT_FOUND, None::<StoredAction<Input>>)
    }
}

/// The response to a query of the fade with the given identifier.
pub fn get_fade_action<Input: Copy>(actions: &Vec<StoredAction<Input>>, id: u128) -> (response: (
    u16,
    Option<StoredAction<Input>>,
))
    ensures
        is_query_response(actions@, id, response),
{
    match position(actions, id) {
        Some(index) => {
            let StoredActionType::Fade(fade) = &actions[index].ty;
            let fade = show(fade);
            assert(is_first(actions@, id, index as int));
            (OK, Some(StoredAction { id, ty: StoredActionType::Fade(fade) }))
        },
        None => (NOT_FOUND, None),
    }
}

/// The response to a request for an action.
#[derive(Debug)]
pub struct Created<Input> {
    pub status: u16,
    /// The value of the `location` header, where there is one.
    pub location: Option<String>,
    pub body: ActionStatus<Option<Input>>,
}

/// The response to a request for an action that was recorded as `action`.
pub fn post_fade_action<Input: Copy>(action: StoredAction<Input>) -> (response: Created<Input>)
    ensures
        match action.ty {
            StoredActionType::Fade(fade) => {
                &&& response.status == CREATED
                &&& response.location == fade.href
                &&& response.body == (ActionStatus {
                    status: ActionStatusStatus::Pending,
                    output: Some(fade.output),
                    error: None,
                    href: fade.href,
                    time_requested: None,
                    time_ended: None,
                })
            },
        },
{
    let (output, href) = match action.ty.into_output_href() {
        Some(parts) => parts,
        None => vstd::pervasive::unreached(),
    };
    let body = ActionStatus {
        status: ActionStatusStatus::Pending,
        output: Some(output),
        error: None,
        href: clone_href(&href),
        time_requested: None,
        time_ended: None,
    };
    Created { status: CREATED, location: href, body }
}

/// The status code for a request to cancel an action that may have been removed or not.
pub fn delete_fade_action(removed: bool) -> (status: u16)
    ensures
        status == if removed {
            NO_CONTENT
        } else {
            NOT_FOUND
        },
{
    if removed {
        NO_CONTENT
    } else {
        NOT_FOUND
    }
}

/// A copy of a list of actions.
pub fn clone_actions<Input: Copy>(actions: &Vec<StoredAction<Input>>) -> (copy: Vec<
    StoredAction<Input>,
>)
    ensures
        copy@ == actions@,
{
    let mut copy: Vec<StoredAction<Input>> = Vec::new();
    let mut index: usize = 0;
    while index < actions.len()
        invariant
            index <= actions.len(),
            copy@ == actions@.take(index as int),
        decreases actions.len() - index,
    {
        copy.push(actions[index].clone());
        index += 1;
        assert(actions@.take(index as int) == actions@.take(index - 1).push(actions@[index - 1]));
    }
    assert(actions@.take(index as int) == actions@);
    copy
}

/// The actions of one kind.
#[derive(Debug)]
pub struct ActionGroup<Input> {
    pub name: ActionName,
    pub actions: Vec<StoredAction<Input>>,
}

/// The actions of the given kind, in order.
pub open spec fn of_kind<Input>(actions: Seq<StoredAction<Input>>, name: ActionName) -> Seq<
    StoredAction<Input>,
> {
    actions.filter(|action: StoredAction<Input>| action.ty.kind() == name)
}

/// Whether `groups` holds, for each kind that occurs among `actions`, the actions of that kind in
/// order, and nothing else.
pub open spec fn is_grouping<Input>(
    groups: Seq<ActionGroup<Input>>,
    actions: Seq<StoredAction<Input>>,
) -> bool {
    &&& forall|g: int|
        0 <= g < groups.len() ==> {
            &&& (#[trigger] groups[g]).actions@ == of_kind(actions, groups[g].name)
            &&& groups[g].actions@.len() > 0
        }
    &&& forall|g: int, h: int|
        0 <= g < h < groups.len() ==> (#[trigger] groups[g]).name != (#[trigger] groups[h]).name
    &&& forall|i: int|
        0 <= i < actions.len() ==> exists|g: int|
            0 <= g < groups.len() && (#[trigger] groups[g]).name == (
            #[trigger] actions[i]).ty.kind()
}

/// Lists the actions by kind.
pub fn get_actions<Input: Copy>(actions: &Vec<StoredAction<Input>>) -> (groups: Vec<
    ActionGroup<Input>,
>)
    ensures
        is_grouping(groups@, actions@),
{
    let mut groups: Vec<ActionGroup<Input>> = Vec::new();
    let mut index: usize = 0;
    while index < actions.len()
        invariant
            index <= actions.len(),
            is_grouping(groups@, actions@.take(index as int)),
        decreases actions.len() - index,
    {
        let action = actions[index].clone();
        let name = action.ty.action_name();
        let ghost before = actions@.take(index as int);
        let ghost after = actions@.take(index + 1);
        let ghost grouped = groups@;
        assert(after == before.push(action));
        assert forall|kind: ActionName| #[trigger]
            of_kind(after, kind) == if kind == action.ty.kind() {
                of_kind(before, kind).push(action)
            } else {
                of_kind(before, kind)
            } by {
            assert(after.drop_last() == before);
            reveal_with_fuel(Seq::filter, 2);
        }
        let mut place: usize = 0;
        while place < groups.len() && groups[place].name != name
            invariant
                place <= groups.len(),
                groups@ == grouped,
                forall|g: int| 0 <= g < place ==> (#[trigger] groups@[g]).name != name,
            decreases groups.len() - place,
        {
            place += 1;
        }
        if place == groups.len() {
            assert(of_kind(before, name).len() == 0) by {
                if of_kind(before, name).len() > 0 {
                    lemma_of_kind_occurs(before, name);
                }
            }
            groups.push(ActionGroup { name, actions: vec![action] });
            assert(groups@[place as int].actions@ == of_kind(before, name).push(action));
        } else {
            groups[place].actions.push(action);
        }
        assert forall|i: int| 0 <= i < after.len() implies exists|g: int|
            0 <= g < groups.len() && (#[trigger] groups@[g]).name == (
            #[trigger] after[i]).ty.kind() by {
            if i < index {
                assert(before[i] == after[i]);
                let g = choose|g: int|
                    0 <= g < grouped.len() && (#[trigger] grouped[g]).name == before[i].ty.kind();
                assert(groups@[g].name == grouped[g].name);
            } else {
                assert(groups@[place as int].name == name);
            }
        }
        index += 1;
    }
    assert(actions@.take(index as int) == actions@);
    groups
}

/// Where actions of a kind are listed, one of them occurs.
proof fn lemma_of_kind_occurs<Input>(actions: Seq<StoredAction<Input>>, name: ActionName)
    requires
        of_kind(actions, name).len() > 0,
    ensures
        exists|i: int| 0 <= i < actions.len() && (#[trigger] actions[i]).ty.kind() == name,
    decreases actions.len(),
{
    reveal_with_fuel(Seq::filter, 2);
    if actions.len() > 0 {
        if actions.last().ty.kind() == name {
            assert(actions[actions.len() - 1].ty.kind() == name);
        } else {
            lemma_of_kind_occurs(actions.drop_last(), name);
            let i = choose|i: int|
                0 <= i < actions.drop_last().len() && (
                #[trigger] actions.drop_last()[i]).ty.kind() == name;
            assert(actions[i].ty.kind() == name);
        }
    }
}

/// Whether no two of `actions` share an identifier.
pub open spec fn distinct_ids<Input>(actions: Seq<StoredAction<Input>>) -> bool {
    forall|i: int, j: int|
        0 <= i < j < actions.len() ==> (#[trigger] actions[i]).id != (#[trigger] actions[j]).id
}

/// Deleting an action forgets it and keeps every other one.
pub proof fn law_delete_forgets_one<Input>(
    actions: Seq<StoredAction<Input>>,
    id: u128,
    after: Seq<StoredAction<Input>>,
)
    requires
        distinct_ids(actions),
        without_first(actions, id, after),
    ensures
        !has_action(after, id),
        distinct_ids(after),
        forall|action: StoredAction<Input>| #[trigger]
            after.contains(action) <==> actions.contains(action) && action.id != id,
{
    if has_action(actions, id) {
        let index = choose|index: int| #[trigger]
            is_first(actions, id, index) && after == actions.update(
                index,
                actions.last(),
            ).drop_last();
        assert forall|action: StoredAction<Input>| #[trigger]
            after.contains(action) <==> actions.contains(action) && action.id != id by {
            if after.contains(action) {
                let i = choose|i: int| 0 <= i < after.len() && after[i] == action;
                let j = if i == index {
                    actions.len() - 1
                } else {
                    i
                };
                assert(actions[j] == action);
            }
            if actions.contains(action) && action.id != id {
                let j = choose|j: int| 0 <= j < actions.len() && actions[j] == action;
                let i = if j == actions.len() - 1 {
                    index
                } else {
                    j
                };
                assert(after[i] == action);
            }
        }
    }
    assert(!has_action(after, id));
    if !has_action(actions, id) {
        assert forall|action: StoredAction<Input>| #[trigger]
            actions.contains(action) implies action.id != id by {
            let i = choose|i: int| 0 <= i < actions.len() && actions[i] == action;
            assert(actions[i].id != id);
        }
    }
}

/// A cancelled action is not found any more, neither by a query nor by another cancellation.
pub proof fn law_cancelled_action_is_gone<Input>(
    actions: Seq<StoredAction<Input>>,
    id: u128,
    after: Seq<StoredAction<Input>>,
    response: (u16, Option<StoredAction<Input>>),
)
    requires
        distinct_ids(actions),
        without_first(actions, id, after),
        is_query_response(after, id, response),
    ensures
        response == (NOT_FOUND, None::<StoredAction<Input>>),
        without_first(after, id, after),
{
    law_delete_forgets_one(actions, id, after);
}

/// A fade that has just been recorded is shown as pending, without what it is to lead to.
pub proof fn law_new_fade_is_pending<Input>(
    actions: Seq<StoredAction<Input>>,
    action: StoredAction<Input>,
    output: Input,
    time_requested: Timestamp,
    response: (u16, Option<StoredAction<Input>>),
)
    requires
        !has_action(actions, action.id),
        is_new_fade(action, action.id, output, time_requested),
        is_query_response(actions.push(action), action.id, response),
    ensures
        response.0 == OK,
        response.1 matches Some(shown) && shown == (StoredAction {
            id: action.id,
            ty: StoredActionType::Fade(
                ActionStatus {
                    status: ActionStatusStatus::Pending,
                    output: None::<Input>,
                    error: None,
                    href: action.ty->0.href,
                    time_requested: Some(time_requested),
                    time_ended: None,
                },
            ),
        }),
{
    lemma_pushed_action_is_first(actions, action);
}

/// A fade that has been completed is shown with what it has led to and when it ended.
pub proof fn law_completed_fade_shows_output<Input>(
    actions: Seq<StoredAction<Input>>,
    action: StoredAction<Input>,
    output: Input,
    time_requested: Timestamp,
    now: Timestamp,
    after: Seq<StoredAction<Input>>,
    response: (u16, Option<StoredAction<Input>>),
)
    requires
        !has_action(actions, action.id),
        is_new_fade(action, action.id, output, time_requested),
        with_first_completed(actions.push(action), action.id, now, after),
        is_query_response(after, action.id, response),
    ensures
        after == actions.push(completed(action, now)),
        response.0 == OK,
        response.1 matches Some(shown) && shown == (StoredAction {
            id: action.id,
            ty: StoredActionType::Fade(
                ActionStatus {
                    status: ActionStatusStatus::Completed,
                    output: Some(output),
                    error: None,
                    href: action.ty->0.href,
                    time_requested: Some(time_requested),
                    time_ended: Some(now),
                },
            ),
        }),
{
    lemma_pushed_action_is_first(actions, action);
    assert(after == actions.push(completed(action, now)));
    lemma_pushed_action_is_first(actions, completed(action, now));
}

/// An action with an identifier of its own is the first with it, and the only one.
proof fn lemma_pushed_action_is_first<Input>(
    actions: Seq<StoredAction<Input>>,
    action: StoredAction<Input>,
)
    requires
        !has_action(actions, action.id),
    ensures
        has_action(actions.push(action), action.id),
        forall|index: int|
            #[trigger] is_first(actions.push(action), action.id, index) ==> index == actions.len(),
{
    let all = actions.push(action);
    assert(all[actions.len() as int].id == action.id);
    assert forall|index: int| #[trigger] is_first(all, action.id, index) implies index
        == actions.len() by {
        if index < actions.len() {
            assert(actions[index].id == action.id);
        }
    }
}

/// Completing an action leaves the others, and the identifiers of all, as they were.
pub proof fn law_completion_keeps_others<Input>(
    actions: Seq<StoredAction<Input>>,
    id: u128,
    now: Timestamp,
    after: Seq<StoredAction<Input>>,
)
    requires
        with_first_completed(actions, id, now, after),
    ensures
        after.len() == actions.len(),
        forall|i: int| 0 <= i < actions.len() ==> (#[trigger] after[i]).id == actions[i].id,
        forall|i: int|
            0 <= i < actions.len() && actions[i].id != id ==> #[trigger] after[i] == actions[i],
{
}

/// Different fades are queried at different places.
pub proof fn law_fades_have_places_of_their_own(a: u128, b: u128)
    requires
        fade_href(a) == fade_href(b),
    ensures
        a == b,
{
    let prefix = "/actions/fade/"@;
    assert(hyphenated_text(a) == fade_href(a).skip(prefix.len() as int));
    assert(hyphenated_text(b) == fade_href(b).skip(prefix.len() as int));
    law_hyphenated_text_is_injective(a, b);
}

/// A query of an action is answered exactly where there is one with the identifier, and shows the
/// first of these: its status, its place and when it was requested always, what it has led to once
/// it has completed, its error once it has failed, and when it ended in either case.
pub proof fn law_query_shows_what_is_due<Input: Copy>(
    actions: &Vec<StoredAction<Input>>,
    id: u128,
    response: (u16, Option<StoredAction<Input>>),
    index: int,
)
    requires
        call_ensures(get_fade_action::<Input>, (actions, id), response),
    ensures
        (forall|i: int| 0 <= i < actions@.len() ==> (#[trigger] actions@[i]).id != id) ==> response
            == (404u16, None::<StoredAction<Input>>),
        0 <= index < actions@.len() && actions@[index].id == id && (forall|i: int|
            0 <= i < index ==> (#[trigger] actions@[i]).id != id) ==> {
            let StoredActionType::Fade(fade) = actions@[index].ty;
            &&& response.0 == 200
            &&& response.1 matches Some(answer)
            &&& answer.id == id
            &&& {
                let StoredActionType::Fade(shown) = answer.ty;
                let ended = fade.status is Completed || fade.status is Failed;
                &&& shown.status == fade.status
                &&& shown.href == fade.href
                &&& shown.time_requested == fade.time_requested
                &&& fade.status is Completed ==> shown.output == fade.output
                &&& !(fade.status is Completed) ==> shown.output is None
                &&& fade.status is Failed ==> shown.error == fade.error
                &&& !(fade.status is Failed) ==> shown.error is None
                &&& ended ==> shown.time_ended == fade.time_ended
                &&& !ended ==> shown.time_ended is None
            }
        },
{
    if has_action(actions@, id) {
        assert forall|other: int|
            0 <= index < actions@.len() && actions@[index].id == id && (forall|i: int|
                0 <= i < index ==> (#[trigger] actions@[i]).id != id) && #[trigger] is_first(
                actions@,
                id,
                other,
            ) implies other == index by {
            if other < index {
                assert(actions@[other].id == id);
            }
        }
    }
}

/// An action shows what it has led to once it has completed, its error once it has failed, and when
/// it ended in either case; all else it shows always.
pub proof fn law_action_shows_what_is_due<Output: Copy>(
    action: &ActionStatus<Output>,
    out: ActionStatus<Output>,
)
    requires
        call_ensures(show::<Output>, (action,), out),
    ensures
        out.status == action.status,
        out.href == action.href,
        out.time_requested == action.time_requested,
        action.status is Completed ==> out.output == action.output && out.time_ended
            == action.time_ended && out.error is None,
        action.status is Failed ==> out.error == action.error && out.time_ended
            == action.time_ended && out.output is None,
        action.status is Pending || action.status is Running ==> out.output is None
            && out.time_ended is None && out.error is None,
{
}

/// Cancelling tells whether there was an action with the identifier. The first of these is
/// forgotten and the last action takes its place; all others stay where they are.
pub proof fn law_cancelling_forgets_the_first<Input>(
    actions: &mut Vec<StoredAction<Input>>,
    name: ActionName,
    id: u128,
    removed: bool,
    index: int,
)
    requires
        call_ensures(delete_action::<Input>, (actions, name, id), removed),
    ensures
        (forall|i: int| 0 <= i < old(actions)@.len() ==> (#[trigger] old(actions)@[i]).id != id)
            ==> !removed && final(actions)@ == old(actions)@,
        0 <= index < old(actions)@.len() && old(actions)@[index].id == id && (forall|i: int|
            0 <= i < index ==> (#[trigger] old(actions)@[i]).id != id) ==> {
            &&& removed
            &&& final(actions)@.len() == old(actions)@.len() - 1
            &&& forall|i: int|
                0 <= i < final(actions)@.len() && i != index ==> #[trigger] final(actions)@[i]
                    == old(actions)@[i]
            &&& index < final(actions)@.len() ==> final(actions)@[index] == old(actions)@.last()
        },
{
    let before = old(actions)@;
    assert forall|other: int|
        0 <= index < before.len() && before[index].id == id && (forall|i: int|
            0 <= i < index ==> (#[trigger] before[i]).id != id) && #[trigger] is_first(
            before,
            id,
            other,
        ) implies other == index by {
        if other < index {
            assert(before[other].id == id);
        }
    }
}

/// Completing tells whether there was an action with the identifier. The first of these has then
/// completed, at the time of it, and keeps all else that is known of it; all others stay as they
/// are.
pub proof fn law_completing_marks_the_first<Input>(
    actions: &mut Vec<StoredAction<Input>>,
    id: u128,
    now: Timestamp,
    found: bool,
    index: int,
)
    requires
        call_ensures(complete_action::<Input>, (actions, id, now), found),
    ensures
        (forall|i: int| 0 <= i < old(actions)@.len() ==> (#[trigger] old(actions)@[i]).id != id)
            ==> !found && final(actions)@ == old(actions)@,
        0 <= index < old(actions)@.len() && old(actions)@[index].id == id && (forall|i: int|
            0 <= i < index ==> (#[trigger] old(actions)@[i]).id != id) ==> {
            let StoredActionType::Fade(before) = old(actions)@[index].ty;
            let StoredActionType::Fade(after) = final(actions)@[index].ty;
            &&& found
            &&& final(actions)@.len() == old(actions)@.len()
            &&& forall|i: int|
                0 <= i < final(actions)@.len() && i != index ==> #[trigger] final(actions)@[i]
                    == old(actions)@[i]
            &&& final(actions)@[index].id == id
            &&& after.status is Completed
            &&& after.time_ended == Some(now)
            &&& after.output == before.output
            &&& after.error == before.error
            &&& after.href == before.href
            &&& after.time_requested == before.time_requested
        },
{
    let before = old(actions)@;
    assert forall|other: int|
        0 <= index < before.len() && before[index].id == id && (forall|i: int|
            0 <= i < index ==> (#[trigger] before[i]).id != id) && #[trigger] is_first(
            before,
            id,
            other,
        ) implies other == index by {
        if other < index {
            assert(before[other].id == id);
        }
    }
}

/// A new fade is recorded under its identifier, as pending, with what it is to lead to, its place
/// and when it was requested, and nothing else.
pub proof fn law_new_fade_is_recorded<Input>(
    id: u128,
    output: Input,
    time_requested: Timestamp,
    action: StoredAction<Input>,
)
    requires
        call_ensures(new_fade::<Input>, (id, output, time_requested), action),
    ensures
        action.id == id,
        ({
            let StoredActionType::Fade(fade) = action.ty;
            &&& fade.status is Pending
            &&& fade.output == Some(output)
            &&& fade.error is None
            &&& fade.href is Some
            &&& fade.href->0@ == "/actions/fade/"@ + hyphenated_text(id)
            &&& fade.time_requested == Some(time_requested)
            &&& fade.time_ended is None
        }),
{
}

/// A request for an action is answered as created, at the place of the action and with what it is
/// to lead to, as pending and without times; a cancellation is answered by whether there was
/// something to cancel.
pub proof fn law_requests_for_actions_are_answered<Input: Copy>(
    action: StoredAction<Input>,
    response: Created<Input>,
    removed: bool,
    status: u16,
)
    requires
        call_ensures(post_fade_action::<Input>, (action,), response),
        call_ensures(delete_fade_action, (removed,), status),
    ensures
        ({
            let StoredActionType::Fade(fade) = action.ty;
            &&& response.status == 201
            &&& response.location == fade.href
            &&& response.body.status is Pending
            &&& response.body.output == Some(fade.output)
            &&& response.body.error is None
            &&& response.body.href == fade.href
            &&& response.body.time_requested is None
            &&& response.body.time_ended is None
        }),
        removed ==> status == 204,
        !removed ==> status == 404,
{
}

/// Actions are listed by their kinds, none without an action: there being one kind only, they are
/// in one group, all of them and in order.
pub proof fn law_actions_are_listed_in_order<Input: Copy>(
    actions: &Vec<StoredAction<Input>>,
    groups: Vec<ActionGroup<Input>>,
    copy: Vec<StoredAction<Input>>,
)
    requires
        call_ensures(get_actions::<Input>, (actions,), groups),
        call_ensures(clone_actions::<Input>, (actions,), copy),
    ensures
        actions@.len() == 0 ==> groups@.len() == 0,
        actions@.len() > 0 ==> groups@.len() == 1 && groups@[0].name is Fade
            && groups@[0].actions@ == actions@,
        copy@ == actions@,
{
    lemma_all_are_of_one_kind(actions@, ActionName::Fade);
    if actions@.len() > 0 {
        assert(actions@[0].ty.kind() == ActionName::Fade);
    }
    if groups@.len() > 0 {
        assert(groups@[0].actions@ == of_kind(actions@, groups@[0].name));
        if groups@.len() > 1 {
            assert(groups@[0].name != groups@[1].name);
        }
    }
}

/// All actions are of the one kind.
proof fn lemma_all_are_of_one_kind<Input>(actions: Seq<StoredAction<Input>>, name: ActionName)
    ensures
        of_kind(actions, name) == actions,
    decreases actions.len(),
{
    reveal_with_fuel(Seq::filter, 2);
    if actions.len() > 0 {
        lemma_all_are_of_one_kind(actions.drop_last(), name);
        assert(actions.drop_last().push(actions.last()) == actions);
    } else {
        assert(of_kind(actions, name) == actions);
    }
}

/// An action tells its kind, its name, what it is to lead to and where it is as it was recorded,
/// and the place of an action is that of the first with its identifier.
pub proof fn law_actions_tell_what_they_are<Input>(
    action: StoredAction<Input>,
    name: ActionName,
    text: &'static str,
    parts: Option<(Option<Input>, Option<String>)>,
    actions: &Vec<StoredAction<Input>>,
    id: u128,
    index: Option<usize>,
)
    requires
        call_ensures(StoredActionType::<Input>::action_name, (&action.ty,), name),
        call_ensures(StoredActionType::<Input>::name, (&action.ty,), text),
        call_ensures(StoredActionType::<Input>::into_output_href, (action.ty,), parts),
        call_ensures(position::<Input>, (actions, id), index),
    ensures
        name is Fade,
        text@ == "fade"@,
        ({
            let StoredActionType::Fade(fade) = action.ty;
            parts == Some((fade.output, fade.href))
        }),
        index matches Some(index) ==> {
            &&& index < actions@.len()
            &&& actions@[index as int].id == id
            &&& forall|i: int| 0 <= i < index ==> (#[trigger] actions@[i]).id != id
        },
        index is None ==> forall|i: int|
            0 <= i < actions@.len() ==> (#[trigger] actions@[i]).id != id,
{
}

} // verus!
