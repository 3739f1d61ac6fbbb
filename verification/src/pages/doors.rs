//! The list page of all doors.

use crate::api::{fetched_model, FetchError, Request, RequestModel, Response, ResponseModel};
use crate::models::door::{door_models, Door, DoorModel};
use crate::runtime::{
    handle_model, last_generation, Command, CommandModel, Effect, EffectModel, Phase,
    RequestHandle,
};
use vstd::prelude::*;

verus! {

/// Mathematical value of a [`Msg`].
pub enum MsgModel {
    Refresh,
    GetResult(nat, Result<Seq<DoorModel>, FetchError>),
    AddLocal(DoorModel),
}

/// The messages of the list page.
#[derive(Debug, PartialEq, Eq)]
pub enum Msg {
    /// Fetch the list again.
    Refresh,
    /// A fetch issued under the given generation completed.
    GetResult(u64, Result<Vec<Door>, FetchError>),
    /// Show one more door at the end of the list, without telling the
    /// server.  No command of this page leads to this message.
    AddLocal(Door),
}

impl View for Msg {
    type V = MsgModel;

    open spec fn view(&self) -> MsgModel {
        match *self {
            Msg::Refresh => MsgModel::Refresh,
            Msg::GetResult(generation, outcome) => MsgModel::GetResult(
                generation as nat,
                fetched_model(outcome),
            ),
            Msg::AddLocal(door) => MsgModel::AddLocal(door@),
        }
    }
}

/// Mathematical value of [`Properties`].
pub struct PropertiesModel {
    pub token: Seq<char>,
    pub attach_token: bool,
}

/// What the page is mounted with.
#[derive(Debug, PartialEq, Eq)]
pub struct Properties {
    /// Authorization token of the signed-in user.
    pub token: String,
    /// Whether commands carry the token.  The page never decides this by
    /// itself: whoever mounts it has to choose.
    pub attach_token: bool,
}

impl View for Properties {
    type V = PropertiesModel;

    open spec fn view(&self) -> PropertiesModel {
        PropertiesModel { token: self.token@, attach_token: self.attach_token }
    }
}

impl Clone for Properties {
    fn clone(&self) -> (copy: Self)
        ensures
            copy == *self,
    {
        Properties { token: self.token.clone(), attach_token: self.attach_token }
    }
}

/// Mathematical value of a [`Row`].
pub struct RowModel {
    pub name: Seq<char>,
    pub compartment: Seq<char>,
    pub level: Seq<char>,
    pub building: Seq<char>,
}

/// One line of the table: the four columns shown of a door.
#[derive(Debug, PartialEq, Eq)]
pub struct Row {
    pub name: String,
    pub compartment: String,
    pub level: String,
    pub building: String,
}

impl View for Row {
    type V = RowModel;

    open spec fn view(&self) -> RowModel {
        RowModel {
            name: self.name@,
            compartment: self.compartment@,
            level: self.level@,
            building: self.building@,
        }
    }
}

/// The line that shows `door`.
pub open spec fn row_of(door: DoorModel) -> RowModel {
    RowModel {
        name: door.name,
        compartment: door.compartment,
        level: door.level,
        building: door.building,
    }
}

/// Mathematical value of a [`Screen`].
pub struct ScreenModel {
    pub rows: Seq<RowModel>,
    pub busy: bool,
    pub failure: Option<FetchError>,
}

/// What the page shows: the table, whether a fetch is in flight, and the
/// failure of the last fetch that settled, if it failed.
#[derive(Debug, PartialEq, Eq)]
pub struct Screen {
    pub rows: Vec<Row>,
    pub busy: bool,
    pub failure: Option<FetchError>,
}

impl View for Screen {
    type V = ScreenModel;

    open spec fn view(&self) -> ScreenModel {
        ScreenModel {
            rows: self.rows@.map_values(|row: Row| row@),
            busy: self.busy,
            failure: self.failure,
        }
    }
}

/// Mathematical value of a [`Doors`] page.
pub struct ListModel {
    pub props: PropertiesModel,
    /// The doors on display, in the order the server sent them, followed by
    /// those added locally since.
    pub items: Seq<DoorModel>,
    /// Generation of the fetch in flight.
    pub pending_request: Option<nat>,
    /// Generation of the newest command issued so far.
    pub generation: nat,
    /// Why the last fetch that settled failed, if it did.
    pub failure: Option<FetchError>,
}

impl ListModel {
    /// The page as it is mounted: an empty list, nothing in flight.
    pub open spec fn initial(props: PropertiesModel) -> ListModel {
        ListModel {
            props,
            items: Seq::empty(),
            pending_request: None,
            generation: 0,
            failure: None,
        }
    }

    /// What holds of every page: the fetch in flight is the newest one
    /// issued, and a failure is on record only while nothing is in flight.
    pub open spec fn wf(self) -> bool {
        &&& self.pending_request matches Some(generation) ==> generation == self.generation
        &&& self.failure is Some ==> self.pending_request is None
    }

    /// The token that commands of this page carry.
    pub open spec fn token(self) -> Option<Seq<char>> {
        if self.props.attach_token {
            Some(self.props.token)
        } else {
            None
        }
    }

    /// Whether a result tagged `generation` answers the fetch in flight.
    pub open spec fn accepts(self, generation: nat) -> bool {
        self.pending_request == Some(generation)
    }

    /// The transition of the page.
    pub open spec fn step(self, msg: MsgModel) -> (ListModel, EffectModel) {
        match msg {
            MsgModel::Refresh => {
                let generation = self.generation + 1;
                (
                    ListModel {
                        pending_request: Some(generation),
                        generation,
                        failure: None,
                        ..self
                    },
                    EffectModel::run(
                        CommandModel {
                            generation,
                            request: RequestModel::FetchAll,
                            token: self.token(),
                        },
                    ),
                )
            },
            MsgModel::GetResult(generation, outcome) => {
                if self.accepts(generation) {
                    match outcome {
                        Ok(doors) => (
                            ListModel {
                                items: doors,
                                pending_request: None,
                                failure: None,
                                ..self
                            },
                            EffectModel::repaint(),
                        ),
                        Err(error) => (
                            ListModel { pending_request: None, failure: Some(error), ..self },
                            EffectModel::repaint(),
                        ),
                    }
                } else {
                    (self, EffectModel::idle())
                }
            },
            MsgModel::AddLocal(door) => (
                ListModel { items: self.items.push(door), ..self },
                EffectModel::repaint(),
            ),
        }
    }

    /// Whether the generation counter of a machine has room for what
    /// handling `msg` issues.
    pub open spec fn in_range(self, msg: MsgModel) -> bool {
        msg is Refresh ==> self.generation < last_generation()
    }

    /// The transition as a machine carries it out: a refresh that would
    /// take the generation counter past its last value is ignored.
    pub open spec fn bounded_step(self, msg: MsgModel) -> (ListModel, EffectModel) {
        if self.in_range(msg) {
            self.step(msg)
        } else {
            (self, EffectModel::idle())
        }
    }

    /// The state after handling `msgs` one by one, first to last.
    pub open spec fn run(self, msgs: Seq<MsgModel>) -> ListModel
        decreases msgs.len(),
    {
        if msgs.len() == 0 {
            self
        } else {
            self.run(msgs.drop_last()).step(msgs.last()).0
        }
    }

    pub open spec fn phase(self) -> Phase {
        if self.pending_request is Some {
            Phase::Loading
        } else if self.failure is Some {
            Phase::Failed
        } else if self.items.len() > 0 {
            Phase::Loaded
        } else {
            Phase::Empty
        }
    }

    pub open spec fn screen(self) -> ScreenModel {
        ScreenModel {
            rows: self.items.map_values(|door: DoorModel| row_of(door)),
            busy: self.pending_request is Some,
            failure: self.failure,
        }
    }
}

/// The message by which the completion of `command` re-enters the page:
/// the outcome of the fetch, under the command's generation.
pub open spec fn completion(command: CommandModel, response: ResponseModel) -> MsgModel {
    MsgModel::GetResult(command.generation, response.fetched())
}

/// The list page.
#[derive(Debug)]
pub struct Doors {
    props: Properties,
    items: Vec<Door>,
    pending_request: Option<RequestHandle>,
    generation: u64,
    failure: Option<FetchError>,
}

impl Doors {
    /// The mathematical value of the page.
    pub closed spec fn model(&self) -> ListModel {
        ListModel {
            props: self.props@,
            items: door_models(self.items@),
            pending_request: handle_model(self.pending_request),
            generation: self.generation as nat,
            failure: self.failure,
        }
    }

    #[verifier::type_invariant]
    spec fn inv(self) -> bool {
        self.model().wf()
    }

    /// Mounts the page.  It starts with an empty list, and the runtime is to
    /// deliver the returned message at once, which fetches the list.
    pub fn create(props: Properties) -> (mounted: (Doors, Msg))
        ensures
            mounted.0.model() == ListModel::initial(props@),
            mounted.0.model().wf(),
            mounted.1@ == MsgModel::Refresh,
    {
        let page = Doors {
            props,
            items: Vec::new(),
            pending_request: None,
            generation: 0,
            failure: None,
        };
        assert(page.model().items =~= Seq::empty());
        (page, Msg::Refresh)
    }

    /// Handles one message.
    pub fn update(&mut self, msg: Msg) -> (effect: Effect)
        ensures
            final(self).model().wf(),
            final(self).model() == old(self).model().bounded_step(msg@).0,
            effect@ == old(self).model().bounded_step(msg@).1,
    {
        proof {
            use_type_invariant(&*self);
        }
        match msg {
            Msg::Refresh => {
                if self.generation == u64::MAX {
                    return Effect { render: false, command: None };
                }
                let generation = self.generation + 1;
                self.failure = None;
                self.pending_request = None;
                self.generation = generation;
                self.pending_request = Some(RequestHandle::new(generation));
                let token = if self.props.attach_token {
                    Some(self.props.token.clone())
                } else {
                    None
                };
                Effect {
                    render: true,
                    command: Some(Command { generation, request: Request::FetchAll, token }),
                }
            },
            Msg::GetResult(generation, outcome) => {
                let answered = match &self.pending_request {
                    Some(handle) => handle.generation() == generation,
                    None => false,
                };
                if !answered {
                    return Effect { render: false, command: None };
                }
                match outcome {
                    Ok(doors) => {
                        self.items = doors;
                        self.pending_request = None;
                        self.failure = None;
                    },
                    Err(error) => {
                        self.pending_request = None;
                        self.failure = Some(error);
                    },
                }
                Effect { render: true, command: None }
            },
            Msg::AddLocal(door) => {
                let mut items = Vec::new();
                std::mem::swap(&mut items, &mut self.items);
                items.push(door);
                self.items = items;
                assert(door_models(self.items@) =~= door_models(old(self).items@).push(door@));
                Effect { render: true, command: None }
            },
        }
    }

    /// Turns the completion of `command` into the message to deliver.
    pub fn on_completion(command: &Command, response: Response) -> (msg: Msg)
        ensures
            msg@ == completion(command@, response@),
    {
        Msg::GetResult(command.generation, response.into_fetched())
    }

    /// Takes new properties.  The page keeps the ones it was mounted with
    /// and needs no repaint.
    pub fn change(&mut self, props: Properties) -> (render: bool)
        ensures
            !render,
            final(self).model() == old(self).model(),
    {
        false
    }

    /// What to show for the present state.
    pub fn view(&self) -> (screen: Screen)
        ensures
            screen@ == self.model().screen(),
    {
        let mut rows: Vec<Row> = Vec::new();
        let mut i: usize = 0;
        while i < self.items.len()
            invariant
                i <= self.items.len(),
                rows@.len() == i,
                forall|j: int| 0 <= j < i ==> (#[trigger] rows@[j])@ == row_of(self.items@[j]@),
            decreases self.items.len() - i,
        {
            let door = &self.items[i];
            rows.push(
                Row {
                    name: door.name.clone(),
                    compartment: door.compartment.clone(),
                    level: door.level.clone(),
                    building: door.building.clone(),
                },
            );
            i += 1;
        }
        let screen = Screen {
            rows,
            busy: self.pending_request.is_some(),
            failure: self.failure,
        };
        assert(screen@.rows =~= self.model().screen().rows);
        screen
    }

    /// The phase the page is in.
    pub fn phase(&self) -> (phase: Phase)
        ensures
            phase == self.model().phase(),
    {
        if self.pending_request.is_some() {
            Phase::Loading
        } else if self.failure.is_some() {
            Phase::Failed
        } else if self.items.len() > 0 {
            Phase::Loaded
        } else {
            Phase::Empty
        }
    }

    /// The doors on display.
    pub fn items(&self) -> (items: &Vec<Door>)
        ensures
            door_models(items@) == self.model().items,
            items@.len() == self.model().items.len(),
    {
        &self.items
    }

    /// Handle of the fetch in flight.
    pub fn pending_request(&self) -> (handle: Option<&RequestHandle>)
        ensures
            match handle {
                Some(handle) => self.model().pending_request == Some(handle@),
                None => self.model().pending_request is None,
            },
    {
        self.pending_request.as_ref()
    }

    /// Generation of the newest command issued so far.
    pub fn generation(&self) -> (generation: u64)
        ensures
            generation == self.model().generation,
    {
        self.generation
    }

    /// Why the last fetch that settled failed, if it did.
    pub fn failure(&self) -> (failure: Option<FetchError>)
        ensures
            failure == self.model().failure,
    {
        self.failure
    }
}

/// Whether `msgs` holds refreshes and results only.
pub open spec fn only_fetching(msgs: Seq<MsgModel>) -> bool {
    forall|i: int| 0 <= i < msgs.len() ==> !((#[trigger] msgs[i]) is AddLocal)
}

/// Whether `msgs` holds results only.
pub open spec fn only_results(msgs: Seq<MsgModel>) -> bool {
    forall|i: int| 0 <= i < msgs.len() ==> (#[trigger] msgs[i]) is GetResult
}

/// Whether the message at position `k` of `msgs` is the result of the
/// newest fetch that the page issued while it handled `msgs`, and the
/// page shows what that result brought: its body as the list if the fetch
/// succeeded, its error as the failure if not.
pub open spec fn shows_result_at(start: ListModel, msgs: Seq<MsgModel>, k: int) -> bool {
    let settled = start.run(msgs);
    &&& 0 <= k < msgs.len()
    &&& msgs[k] matches MsgModel::GetResult(generation, outcome)
    &&& generation == settled.generation
    &&& match outcome {
        Ok(doors) => settled.items == doors && settled.failure is None,
        Err(error) => settled.failure == Some(error),
    }
}

/// A page is mounted in a state that satisfies the invariant.
pub proof fn lemma_initial_wf(props: PropertiesModel)
    ensures
        ListModel::initial(props).wf(),
        ListModel::initial(props).phase() == Phase::Empty,
{
}

/// No message leads out of the invariant.
pub proof fn lemma_step_preserves_wf(page: ListModel, msg: MsgModel)
    requires
        page.wf(),
    ensures
        page.step(msg).0.wf(),
        page.bounded_step(msg).0.wf(),
{
}

/// Generations only grow: a refresh takes the next generation for its
/// command, and every other message leaves the counter alone.
pub proof fn lemma_generation_grows(page: ListModel, msg: MsgModel)
    ensures
        msg is Refresh ==> page.step(msg).0.generation == page.generation + 1,
        !(msg is Refresh) ==> page.step(msg).0.generation == page.generation,
        msg is Refresh <==> page.step(msg).1.command is Some,
        page.step(msg).1.command matches Some(command) ==> {
            &&& command.generation == page.step(msg).0.generation
            &&& command.request == RequestModel::FetchAll
            &&& page.step(msg).0.pending_request == Some(command.generation)
        },
{
}

/// Over any run of messages the invariant holds at the end, and the
/// generation at the end is no smaller than at any point before.
pub proof fn lemma_run_grows(page: ListModel, msgs: Seq<MsgModel>, n: int)
    requires
        page.wf(),
        0 <= n <= msgs.len(),
    ensures
        page.run(msgs).wf(),
        page.run(msgs.take(n)).generation <= page.run(msgs).generation,
    decreases msgs.len(),
{
    if msgs.len() == 0 {
        assert(msgs.take(n) =~= msgs);
    } else if n == msgs.len() {
        assert(msgs.take(n) =~= msgs);
        lemma_run_grows(page, msgs.drop_last(), 0);
    } else {
        assert(msgs.drop_last().take(n) =~= msgs.take(n));
        lemma_run_grows(page, msgs.drop_last(), n);
    }
}

/// A fetched list that answers the fetch in flight replaces the list on
/// display entirely, also when it is empty.
pub proof fn law_fetched_list_replaces_items(
    page: ListModel,
    generation: nat,
    doors: Seq<DoorModel>,
)
    requires
        page.accepts(generation),
    ensures
        ({
            let next = page.step(MsgModel::GetResult(generation, Ok(doors))).0;
            &&& next.items == doors
            &&& next.failure is None
            &&& next.pending_request is None
        }),
{
}

/// A failed fetch leaves the list on display as it was and puts the
/// failure on record.
pub proof fn law_failed_fetch_keeps_items(page: ListModel, generation: nat, error: FetchError)
    requires
        page.accepts(generation),
    ensures
        ({
            let next = page.step(MsgModel::GetResult(generation, Err(error))).0;
            &&& next.items == page.items
            &&& next.failure == Some(error)
            &&& next.phase() == Phase::Failed
        }),
{
}

/// A result that does not bear the page's current generation is dropped:
/// the state stays as it is and nothing is painted or issued.
pub proof fn law_stale_result_is_dropped(
    page: ListModel,
    generation: nat,
    outcome: Result<Seq<DoorModel>, FetchError>,
)
    requires
        page.wf(),
        generation != page.generation,
    ensures
        page.step(MsgModel::GetResult(generation, outcome)) == (page, EffectModel::idle()),
{
}

/// Of two fetches in flight the later one decides what is on display, in
/// whichever order the two complete.  After two refreshes, the response to
/// the first and the list `newer` in response to the second leave the page
/// showing `newer`, whether the first response arrives before the second
/// or after it.
pub proof fn law_completion_order_is_irrelevant(
    page: ListModel,
    older: ResponseModel,
    newer: Seq<DoorModel>,
)
    ensures
        ({
            let (once, first) = page.step(MsgModel::Refresh);
            let (twice, second) = once.step(MsgModel::Refresh);
            let late = completion(first.command->0, older);
            let fresh = completion(second.command->0, ResponseModel::Doors(newer));
            &&& first.command is Some
            &&& second.command is Some
            &&& first.command->0.generation < second.command->0.generation
            &&& twice.step(late).0.step(fresh).0.items == newer
            &&& twice.step(fresh).0.step(late).0.items == newer
        }),
{
}

/// Once the fetch in flight is answered with a list, results that arrive
/// afterwards change nothing, whatever generation they bear and however
/// many they are: the page keeps showing that list.
pub proof fn law_late_results_change_nothing(
    page: ListModel,
    generation: nat,
    doors: Seq<DoorModel>,
    late: Seq<MsgModel>,
)
    requires
        page.accepts(generation),
        only_results(late),
    ensures
        ({
            let settled = page.step(MsgModel::GetResult(generation, Ok(doors))).0.run(late);
            &&& settled.items == doors
            &&& settled.pending_request is None
        }),
    decreases late.len(),
{
    if late.len() > 0 {
        let earlier = late.drop_last();
        assert forall|i: int| 0 <= i < earlier.len() implies (#[trigger] earlier[i]) is GetResult by {
            assert(earlier[i] == late[i]);
        }
        law_late_results_change_nothing(page, generation, doors, earlier);
        assert(late.last() == late[late.len() - 1]);
    }
}

/// After any run of refreshes and results, in any order of arrival, a page
/// that has nothing in flight shows the result of the newest fetch it
/// issued.  If a fetch was in flight at the start or one was issued during
/// the run, and none is in flight at the end, then the result that bears
/// the newest generation is among the messages, and the list on display is
/// its body (or, if that fetch failed, its error is the failure on
/// record).
pub proof fn law_settled_list_is_newest_body(start: ListModel, msgs: Seq<MsgModel>)
    requires
        start.wf(),
        only_fetching(msgs),
    ensures
        ({
            let settled = start.run(msgs);
            &&& settled.wf()
            &&& settled.generation >= start.generation
            &&& (settled.pending_request is None && (start.pending_request is Some
                || settled.generation > start.generation)) ==> exists|k: int|
                shows_result_at(start, msgs, k)
        }),
    decreases msgs.len(),
{
    if msgs.len() > 0 {
        let earlier = msgs.drop_last();
        let last = msgs.last();
        assert forall|i: int| 0 <= i < earlier.len() implies !((#[trigger] earlier[i]) is AddLocal) by {
            assert(earlier[i] == msgs[i]);
        }
        law_settled_list_is_newest_body(start, earlier);
        let before = start.run(earlier);
        let settled = start.run(msgs);
        assert(last == msgs[msgs.len() - 1]);
        assert(settled == before.step(last).0);
        if settled.pending_request is None && (start.pending_request is Some || settled.generation
            > start.generation) {
            match last {
                MsgModel::GetResult(generation, outcome) => {
                    if before.accepts(generation) {
                        assert(shows_result_at(start, msgs, msgs.len() - 1));
                    } else {
                        assert(settled == before);
                        let k = choose|k: int| shows_result_at(start, earlier, k);
                        assert(earlier[k] == msgs[k]);
                        assert(shows_result_at(start, msgs, k));
                    }
                },
                _ => {},
            }
        }
    }
}

} // verus!
