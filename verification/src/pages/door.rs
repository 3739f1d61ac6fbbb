//! The editor page of a single door.

use crate::api::{fetched_model, FetchError, Request, RequestModel, Response, ResponseModel};
use crate::models::door::{Door, DoorModel};
use crate::runtime::{
    handle_model, last_generation, Command, CommandModel, Effect, EffectModel, Phase,
    RequestHandle,
};
use vstd::prelude::*;

verus! {

/// Mathematical value of a [`Msg`].
pub enum MsgModel {
    Get,
    GetResult(nat, Result<Seq<DoorModel>, FetchError>),
    Save,
    Delete,
    Acknowledge,
}

/// The messages of the editor page.
#[derive(Debug, PartialEq, Eq)]
pub enum Msg {
    /// Fetch the door again.
    Get,
    /// A fetch issued under the given generation completed.
    GetResult(u64, Result<Vec<Door>, FetchError>),
    /// Send the door on display to the server.
    Save,
    /// Delete the door on the server.
    Delete,
    /// A deletion completed.
    Acknowledge,
}

impl View for Msg {
    type V = MsgModel;

    open spec fn view(&self) -> MsgModel {
        match *self {
            Msg::Get => MsgModel::Get,
            Msg::GetResult(generation, outcome) => MsgModel::GetResult(
                generation as nat,
                fetched_model(outcome),
            ),
            Msg::Save => MsgModel::Save,
            Msg::Delete => MsgModel::Delete,
            Msg::Acknowledge => MsgModel::Acknowledge,
        }
    }
}

/// Mathematical value of [`Properties`].
pub struct PropertiesModel {
    pub token: Seq<char>,
    pub attach_token: bool,
    pub id: int,
}

/// What the page is mounted with.
#[derive(Debug, PartialEq, Eq)]
pub struct Properties {
    /// Authorization token of the signed-in user.
    pub token: String,
    /// Whether commands carry the token.  The page never decides this by
    /// itself: whoever mounts it has to choose.
    pub attach_token: bool,
    /// Identity of the door to edit.
    pub id: i32,
}

impl View for Properties {
    type V = PropertiesModel;

    open spec fn view(&self) -> PropertiesModel {
        PropertiesModel { token: self.token@, attach_token: self.attach_token, id: self.id as int }
    }
}

impl Clone for Properties {
    fn clone(&self) -> (copy: Self)
        ensures
            copy == *self,
    {
        Properties { token: self.token.clone(), attach_token: self.attach_token, id: self.id }
    }
}

/// Mathematical value of a [`Screen`].
pub enum ScreenModel {
    Form { door: DoorModel, busy: bool },
    Loading,
    Empty,
    Failed { error: FetchError },
}

/// What the page shows.
#[derive(Debug, PartialEq, Eq)]
pub enum Screen {
    /// The five text fields of the door, with the means to save and to
    /// delete it.  `busy` tells that an operation is in flight, so the data
    /// may be stale.
    Form { door: Door, busy: bool },
    /// No door yet, and an operation is in flight.
    Loading,
    /// No door: none was fetched yet, the server knows none of this
    /// identity, or it was deleted.
    Empty,
    /// The last fetch failed; offer to try again.
    Failed { error: FetchError },
}

impl View for Screen {
    type V = ScreenModel;

    open spec fn view(&self) -> ScreenModel {
        match *self {
            Screen::Form { door, busy } => ScreenModel::Form { door: door@, busy },
            Screen::Loading => ScreenModel::Loading,
            Screen::Empty => ScreenModel::Empty,
            Screen::Failed { error } => ScreenModel::Failed { error },
        }
    }
}

/// Mathematical value of a [`DoorPage`].
pub struct PageModel {
    pub props: PropertiesModel,
    /// The door on display.
    pub cache: Option<DoorModel>,
    /// Generation of the operation in flight.
    pub pending_request: Option<nat>,
    /// Generation of the newest command issued so far.
    pub generation: nat,
    /// Why the last fetch that settled failed, if it did.
    pub failure: Option<FetchError>,
}

impl PageModel {
    /// The page as it is mounted: nothing on display, nothing in flight.
    pub open spec fn initial(props: PropertiesModel) -> PageModel {
        PageModel { props, cache: None, pending_request: None, generation: 0, failure: None }
    }

    /// What holds of every page: the door on display is the one the page
    /// was mounted for, the operation in flight is the newest one issued,
    /// and a failure is on record only while nothing is in flight.
    pub open spec fn wf(self) -> bool {
        &&& self.cache matches Some(door) ==> door.id == self.props.id
        &&& self.pending_request matches Some(generation) ==> generation == self.generation
        &&& self.failure is Some ==> self.pending_request is None
    }

    /// The token that commands of this page carry.
    pub open spec fn token(self) -> Option<Seq<char>> {
        if self.props.attach_token {
            Some(self.props.token)
        } else {
            None
        }
    }

    /// Issues `request` under the next generation.  The new handle replaces
    /// the stored one, and a failure on record is forgotten.
    pub open spec fn issue(self, request: RequestModel) -> (PageModel, CommandModel) {
        let generation = self.generation + 1;
        (
            PageModel {
                pending_request: Some(generation),
                generation,
                failure: None,
                ..self
            },
            CommandModel { generation, request, token: self.token() },
        )
    }

    /// Whether a result tagged `generation` answers the operation in flight.
    pub open spec fn accepts(self, generation: nat) -> bool {
        self.pending_request == Some(generation)
    }

    /// The door that a fetched list puts on display: its first element, if
    /// that is the door the page was mounted for.
    pub open spec fn selected(self, doors: Seq<DoorModel>) -> Option<DoorModel> {
        if doors.len() > 0 && doors[0].id == self.props.id {
            Some(doors[0])
        } else {
            None
        }
    }

    /// Whether handling `msg` issues a command.
    pub open spec fn issues(self, msg: MsgModel) -> bool {
        match msg {
            MsgModel::Get => true,
            MsgModel::Delete => true,
            MsgModel::Save => self.cache is Some,
            _ => false,
        }
    }

    /// The transition of the page.
    pub open spec fn step(self, msg: MsgModel) -> (PageModel, EffectModel) {
        match msg {
            MsgModel::Get => {
                let (next, command) = self.issue(RequestModel::FetchOne { id: self.props.id });
                (next, EffectModel::run(command))
            },
            MsgModel::GetResult(generation, outcome) => {
                if self.accepts(generation) {
                    match outcome {
                        Ok(doors) => (
                            PageModel {
                                cache: self.selected(doors),
                                pending_request: None,
                                failure: None,
                                ..self
                            },
                            EffectModel::repaint(),
                        ),
                        Err(error) => (
                            PageModel {
                                cache: None,
                                pending_request: None,
                                failure: Some(error),
                                ..self
                            },
                            EffectModel::repaint(),
                        ),
                    }
                } else {
                    (self, EffectModel::idle())
                }
            },
            MsgModel::Save => {
                match self.cache {
                    Some(door) => {
                        let (next, command) = self.issue(RequestModel::Upsert { door });
                        (next, EffectModel::run(command))
                    },
                    None => (self, EffectModel::idle()),
                }
            },
            MsgModel::Delete => {
                let (next, command) = self.issue(RequestModel::Remove { id: self.props.id });
                (PageModel { cache: None, ..next }, EffectModel::run(command))
            },
            MsgModel::Acknowledge => (self, EffectModel::repaint()),
        }
    }

    /// Whether the generation counter of a machine has room for what
    /// handling `msg` issues.
    pub open spec fn in_range(self, msg: MsgModel) -> bool {
        self.issues(msg) ==> self.generation < last_generation()
    }

    /// The transition as a machine carries it out: a message that would
    /// take the generation counter past its last value is ignored.
    pub open spec fn bounded_step(self, msg: MsgModel) -> (PageModel, EffectModel) {
        if self.in_range(msg) {
            self.step(msg)
        } else {
            (self, EffectModel::idle())
        }
    }

    pub open spec fn phase(self) -> Phase {
        if self.pending_request is Some {
            Phase::Loading
        } else if self.failure is Some {
            Phase::Failed
        } else if self.cache is Some {
            Phase::Loaded
        } else {
            Phase::Empty
        }
    }

    pub open spec fn screen(self) -> ScreenModel {
        match self.cache {
            Some(door) => ScreenModel::Form { door, busy: self.pending_request is Some },
            None => {
                if self.pending_request is Some {
                    ScreenModel::Loading
                } else {
                    match self.failure {
                        Some(error) => ScreenModel::Failed { error },
                        None => ScreenModel::Empty,
                    }
                }
            },
        }
    }
}

/// The message by which the completion of `command` re-enters the page: a
/// fetch reports its outcome under the command's generation, a save asks
/// for a fresh fetch whether it succeeded or not, and a deletion is
/// acknowledged.
pub open spec fn completion(command: CommandModel, response: ResponseModel) -> MsgModel {
    match command.request {
        RequestModel::Upsert { .. } => MsgModel::Get,
        RequestModel::Remove { .. } => MsgModel::Acknowledge,
        _ => MsgModel::GetResult(command.generation, response.fetched()),
    }
}

/// The editor page of one door.
#[derive(Debug)]
pub struct DoorPage {
    props: Properties,
    cache: Option<Door>,
    pending_request: Option<RequestHandle>,
    generation: u64,
    failure: Option<FetchError>,
}

impl DoorPage {
    /// The mathematical value of the page.
    pub closed spec fn model(&self) -> PageModel {
        PageModel {
            props: self.props@,
            cache: match self.cache {
                Some(door) => Some(door@),
                None => None,
            },
            pending_request: handle_model(self.pending_request),
            generation: self.generation as nat,
            failure: self.failure,
        }
    }
}

impl DoorPage {
    #[verifier::type_invariant]
    spec fn inv(self) -> bool {
        self.model().wf()
    }

    /// Mounts the page.  It starts with nothing on display, and the runtime
    /// is to deliver `first` at once, which fetches the door.
    pub fn create(props: Properties) -> (mounted: (DoorPage, Msg))
        ensures
            mounted.0.model() == PageModel::initial(props@),
            mounted.0.model().wf(),
            mounted.1@ == MsgModel::Get,
    {
        (
            DoorPage { props, cache: None, pending_request: None, generation: 0, failure: None },
            Msg::Get,
        )
    }

    fn issue(&mut self, request: Request) -> (command: Command)
        requires
            old(self).generation < u64::MAX,
        ensures
            final(self).model() == old(self).model().issue(request@).0,
            command@ == old(self).model().issue(request@).1,
    {
        proof {
            use_type_invariant(&*self);
        }
        let generation = self.generation + 1;
        self.failure = None;
        self.pending_request = None;
        self.generation = generation;
        self.pending_request = Some(RequestHandle::new(generation));
        let token = if self.props.attach_token {
            Some(self.props.token.clone())
        } else {
            None
        };
        Command { generation, request, token }
    }

    /// Handles one message.
    pub fn update(&mut self, msg: Msg) -> (effect: Effect)
        ensures
            final(self).model().wf(),
            final(self).model() == old(self).model().bounded_step(msg@).0,
            effect@ == old(self).model().bounded_step(msg@).1,
    {
        proof {
            use_type_invariant(&*self);
        }
        match msg {
            Msg::Get => {
                if self.generation == u64::MAX {
                    return Effect { render: false, command: None };
                }
                let command = self.issue(Request::FetchOne { id: self.props.id });
                Effect { render: true, command: Some(command) }
            },
            Msg::GetResult(generation, outcome) => {
                let answered = match &self.pending_request {
                    Some(handle) => handle.generation() == generation,
                    None => false,
                };
                if !answered {
                    return Effect { render: false, command: None };
                }
                match outcome {
                    Ok(doors) => {
                        let found = if doors.len() > 0 && doors[0].id == self.props.id {
                            Some(doors[0].clone())
                        } else {
                            None
                        };
                        self.cache = found;
                        self.pending_request = None;
                        self.failure = None;
                    },
                    Err(error) => {
                        self.cache = None;
                        self.pending_request = None;
                        self.failure = Some(error);
                    },
                }
                Effect { render: true, command: None }
            },
            Msg::Save => {
                if self.generation == u64::MAX {
                    return Effect { render: false, command: None };
                }
                let door = match &self.cache {
                    Some(door) => door.clone(),
                    None => {
                        return Effect { render: false, command: None };
                    },
                };
                let command = self.issue(Request::Upsert { door });
                Effect { render: true, command: Some(command) }
            },
            Msg::Delete => {
                if self.generation == u64::MAX {
                    return Effect { render: false, command: None };
                }
                let command = self.issue(Request::Remove { id: self.props.id });
                self.cache = None;
                Effect { render: true, command: Some(command) }
            },
            Msg::Acknowledge => Effect { render: true, command: None },
        }
    }

    /// Turns the completion of `command` into the message to deliver.
    pub fn on_completion(command: &Command, response: Response) -> (msg: Msg)
        ensures
            msg@ == completion(command@, response@),
    {
        match &command.request {
            Request::Upsert { .. } => Msg::Get,
            Request::Remove { .. } => Msg::Acknowledge,
            _ => Msg::GetResult(command.generation, response.into_fetched()),
        }
    }

    /// Takes new properties.  The page keeps the ones it was mounted with
    /// and needs no repaint.
    pub fn change(&mut self, props: Properties) -> (render: bool)
        ensures
            !render,
            final(self).model() == old(self).model(),
    {
        false
    }

    /// What to show for the present state.
    pub fn view(&self) -> (screen: Screen)
        ensures
            screen@ == self.model().screen(),
    {
        let busy = self.pending_request.is_some();
        match &self.cache {
            Some(door) => Screen::Form { door: door.clone(), busy },
            None => {
                if busy {
                    Screen::Loading
                } else {
                    match self.failure {
                        Some(error) => Screen::Failed { error },
                        None => Screen::Empty,
                    }
                }
            },
        }
    }

    /// The phase the page is in.
    pub fn phase(&self) -> (phase: Phase)
        ensures
            phase == self.model().phase(),
    {
        if self.pending_request.is_some() {
            Phase::Loading
        } else if self.failure.is_some() {
            Phase::Failed
        } else if self.cache.is_some() {
            Phase::Loaded
        } else {
            Phase::Empty
        }
    }

    /// Identity of the door the page was mounted for.
    pub fn target_id(&self) -> (id: i32)
        ensures
            id == self.model().props.id,
    {
        self.props.id
    }

    /// The door on display.  It is always the door the page was mounted
    /// for.
    pub fn cache(&self) -> (cache: Option<&Door>)
        ensures
            match cache {
                Some(door) => self.model().cache == Some(door@) && door.id == self.model().props.id,
                None => self.model().cache is None,
            },
    {
        proof {
            use_type_invariant(self);
        }
        self.cache.as_ref()
    }

    /// Handle of the operation in flight.
    pub fn pending_request(&self) -> (handle: Option<&RequestHandle>)
        ensures
            match handle {
                Some(handle) => self.model().pending_request == Some(handle@),
                None => self.model().pending_request is None,
            },
    {
        self.pending_request.as_ref()
    }

    /// Generation of the newest command issued so far.
    pub fn generation(&self) -> (generation: u64)
        ensures
            generation == self.model().generation,
    {
        self.generation
    }

    /// Why the last fetch that settled failed, if it did.
    pub fn failure(&self) -> (failure: Option<FetchError>)
        ensures
            failure == self.model().failure,
    {
        self.failure
    }
}

/// A page is mounted in a state that satisfies the invariant.
pub proof fn lemma_initial_wf(props: PropertiesModel)
    ensures
        PageModel::initial(props).wf(),
        PageModel::initial(props).phase() == Phase::Empty,
{
}

/// No message leads out of the invariant: whatever arrives, the door on
/// display stays the one the page was mounted for, and the operation in
/// flight stays the newest one issued.
pub proof fn lemma_step_preserves_wf(page: PageModel, msg: MsgModel)
    requires
        page.wf(),
    ensures
        page.step(msg).0.wf(),
        page.bounded_step(msg).0.wf(),
{
}

/// Generations only grow: a message that issues a command takes the next
/// generation for it, and every other message leaves the counter alone.
pub proof fn lemma_generation_grows(page: PageModel, msg: MsgModel)
    ensures
        page.issues(msg) ==> page.step(msg).0.generation == page.generation + 1,
        !page.issues(msg) ==> page.step(msg).0.generation == page.generation,
        page.issues(msg) <==> page.step(msg).1.command is Some,
        page.step(msg).1.command matches Some(command) ==> {
            &&& command.generation == page.step(msg).0.generation
            &&& page.step(msg).0.pending_request == Some(command.generation)
        },
{
}

/// A fetch that answers the operation in flight with an empty list leaves
/// the page without a door and without a failure: the door was not found,
/// which is a state of its own and no error.
pub proof fn law_empty_list_means_not_found(page: PageModel, generation: nat)
    requires
        page.accepts(generation),
    ensures
        ({
            let next = page.step(MsgModel::GetResult(generation, Ok(Seq::empty()))).0;
            &&& next.cache is None
            &&& next.failure is None
            &&& next.pending_request is None
            &&& next.phase() == Phase::Empty
            &&& next.screen() == ScreenModel::Empty
        }),
{
}

/// A fetch that answers the operation in flight with a failure clears the
/// door on display and puts the failure on record.
pub proof fn law_failed_fetch_is_shown(page: PageModel, generation: nat, error: FetchError)
    requires
        page.accepts(generation),
    ensures
        ({
            let next = page.step(MsgModel::GetResult(generation, Err(error))).0;
            &&& next.cache is None
            &&& next.failure == Some(error)
            &&& next.phase() == Phase::Failed
            &&& next.screen() == ScreenModel::Failed { error }
        }),
{
}

/// A result that does not bear the page's current generation is dropped:
/// the state stays as it is and nothing is painted or issued.
pub proof fn law_stale_result_is_dropped(
    page: PageModel,
    generation: nat,
    outcome: Result<Seq<DoorModel>, FetchError>,
)
    requires
        page.wf(),
        generation != page.generation,
    ensures
        page.step(MsgModel::GetResult(generation, outcome)) == (page, EffectModel::idle()),
{
}

/// Saving and then fetching what was saved changes nothing on display.
/// `Save` sends the door on display; when the save completes, with
/// whatever response, a fresh fetch is issued; and when that fetch returns
/// the door that was sent, the page shows the same door as before.
pub proof fn law_save_then_fetch_keeps_door(
    page: PageModel,
    door: DoorModel,
    save_response: ResponseModel,
)
    requires
        page.wf(),
        page.cache == Some(door),
    ensures
        ({
            let (saving, save) = page.step(MsgModel::Save);
            let (fetching, fetch) = saving.step(completion(save.command->0, save_response));
            let settled = fetching.step(
                completion(fetch.command->0, ResponseModel::Doors(seq![door])),
            ).0;
            &&& save.command is Some
            &&& save.command->0.request == RequestModel::Upsert { door }
            &&& saving.cache == page.cache
            &&& fetch.command is Some
            &&& fetch.command->0.request == RequestModel::FetchOne { id: page.props.id }
            &&& fetching.cache == page.cache
            &&& settled.cache == page.cache
            &&& settled.phase() == Phase::Loaded
        }),
{
}

/// `Save` without a door on display does nothing at all.
pub proof fn law_save_without_door_is_noop(page: PageModel)
    requires
        page.cache is None,
    ensures
        page.step(MsgModel::Save) == (page, EffectModel::idle()),
{
}

/// `Delete` clears the door on display in the very transition that issues
/// the deletion, before any response can have arrived, and the
/// acknowledgement that follows changes nothing.
pub proof fn law_delete_clears_at_once(page: PageModel, response: ResponseModel)
    ensures
        ({
            let (deleting, delete) = page.step(MsgModel::Delete);
            &&& deleting.cache is None
            &&& delete.command is Some
            &&& delete.command->0.request == RequestModel::Remove { id: page.props.id }
            &&& completion(delete.command->0, response) == MsgModel::Acknowledge
            &&& deleting.step(MsgModel::Acknowledge).0 == deleting
        }),
{
}

/// `Get` keeps the door on display while the fetch is in flight.
pub proof fn law_get_keeps_stale_door(page: PageModel)
    ensures
        page.step(MsgModel::Get).0.cache == page.cache,
        page.step(MsgModel::Get).0.phase() == Phase::Loading,
        page.step(MsgModel::Get).1.command is Some,
        page.step(MsgModel::Get).1.command->0.request == (RequestModel::FetchOne {
            id: page.props.id,
        }),
{
}

} // verus!
