//! The order of a run: which step follows which, and what each step does
//! with what came back from the terminal or the network.
//!
//! A [`Flow`] never performs anything itself. It hands out an [`Action`];
//! whoever drives it performs the action and reports the outcome as an
//! [`Event`] to [`Flow::advance`], which answers with the next action. The
//! whole behaviour is the function [`step`] on the views of these types.

use crate::entry::{entry_for, TimeEntry, TimeEntryView};
use crate::failure::{rejection_line, rejection_of, Call, Failure, Menu};
use crate::model::{Customer, CustomerView, Project, ProjectView, Service, ServiceView};
use crate::receipt::{decode_receipt, decoded, reply_of, summary_of, ReceiptView, CREATED};
use crate::select::{
    labels_of, lemma_projects_of_exact, offer, offer_of, pick, projects_for, projects_of, Prompt,
    PromptView,
};
use vstd::prelude::*;

verus! {

/// The hours that are entered where the user types nothing.
pub const DEFAULT_HOURS: u32 = 8;

/// Where a run stands, with the records chosen so far.
#[derive(Clone, Debug, PartialEq, Eq)]
pub enum Flow {
    /// The list of customers was asked for.
    AwaitCustomers,
    /// The user is choosing among `customers`.
    ChoosingCustomer { customers: Vec<Customer> },
    /// The list of projects was asked for.
    AwaitProjects { customer: Customer },
    /// The user is choosing among `projects`, the projects of `customer`.
    ChoosingProject { customer: Customer, projects: Vec<Project> },
    /// The list of services was asked for.
    AwaitServices { customer: Customer, project: Project },
    /// The user is choosing among `services`.
    ChoosingService { customer: Customer, project: Project, services: Vec<Service> },
    /// The user is asked for the hours.
    AwaitHours { customer: Customer, project: Project, service: Service },
    /// The user is asked for the note.
    AwaitNote { customer: Customer, project: Project, service: Service, hours: u32 },
    /// The entry was submitted.
    AwaitStatus { customer: Customer, project: Project, service: Service },
    /// The service confirmed the entry, and the body of its answer was asked
    /// for.
    AwaitBody { customer: Customer, project: Project, service: Service },
    /// The run ended with a report to the user.
    Done,
    /// The run was given up.
    Failed(Failure),
}

/// What came back from the step that the last action asked for.
#[derive(Clone, Debug, PartialEq, Eq)]
pub enum Event {
    /// The customers that the service lists.
    Customers(Vec<Customer>),
    /// The projects that the service lists, of all customers.
    Projects(Vec<Project>),
    /// The services that the service lists.
    Services(Vec<Service>),
    /// The index of the line that the user chose.
    Chosen(usize),
    /// The hours that the user entered.
    Hours(u32),
    /// The note that the user entered; it may be empty.
    Note(String),
    /// The status of the answer to the submission.
    Status(u16),
    /// The body of the answer to the submission.
    Body(Vec<u8>),
    /// The network failed on the request.
    TransportFailed,
    /// The body of a list did not have the expected shape.
    DecodeFailed,
}

/// What is to be done next.
#[derive(Clone, Debug, PartialEq, Eq)]
pub enum Action {
    /// Request the list of the given call.
    Fetch(Call),
    /// Put the prompt to the user.
    Select(Prompt),
    /// Ask the user for the hours, with the given default.
    AskHours { default: u32 },
    /// Ask the user for the note.
    AskNote,
    /// Submit the entry and report the status of the answer.
    Submit(TimeEntry),
    /// Read the body of the answer to the submission.
    ReadBody,
    /// Print the text and end normally.
    Report(String),
    /// Report the failure and end abnormally.
    Abort(Failure),
}

/// What a [`Flow`] is, over the views of its records.
pub ghost enum FlowView {
    AwaitCustomers,
    ChoosingCustomer { customers: Seq<CustomerView> },
    AwaitProjects { customer: CustomerView },
    ChoosingProject { customer: CustomerView, projects: Seq<ProjectView> },
    AwaitServices { customer: CustomerView, project: ProjectView },
    ChoosingService { customer: CustomerView, project: ProjectView, services: Seq<ServiceView> },
    AwaitHours { customer: CustomerView, project: ProjectView, service: ServiceView },
    AwaitNote { customer: CustomerView, project: ProjectView, service: ServiceView, hours: u32 },
    AwaitStatus { customer: CustomerView, project: ProjectView, service: ServiceView },
    AwaitBody { customer: CustomerView, project: ProjectView, service: ServiceView },
    Done,
    Failed(Failure),
}

/// What an [`Event`] is, over the views of its records.
pub ghost enum EventView {
    Customers(Seq<CustomerView>),
    Projects(Seq<ProjectView>),
    Services(Seq<ServiceView>),
    Chosen(usize),
    Hours(u32),
    Note(Seq<char>),
    Status(u16),
    Body(Seq<u8>),
    TransportFailed,
    DecodeFailed,
}

/// What an [`Action`] is, over the views of its records.
pub ghost enum ActionView {
    Fetch(Call),
    Select(PromptView),
    AskHours { default: u32 },
    AskNote,
    Submit(TimeEntryView),
    ReadBody,
    Report(Seq<char>),
    Abort(Failure),
}

impl View for Flow {
    type V = FlowView;

    open spec fn view(&self) -> FlowView {
        match *self {
            Flow::AwaitCustomers => FlowView::AwaitCustomers,
            Flow::ChoosingCustomer { customers } => FlowView::ChoosingCustomer {
                customers: customers.deep_view(),
            },
            Flow::AwaitProjects { customer } => FlowView::AwaitProjects { customer: customer@ },
            Flow::ChoosingProject { customer, projects } => FlowView::ChoosingProject {
                customer: customer@,
                projects: projects.deep_view(),
            },
            Flow::AwaitServices { customer, project } => FlowView::AwaitServices {
                customer: customer@,
                project: project@,
            },
            Flow::ChoosingService { customer, project, services } => FlowView::ChoosingService {
                customer: customer@,
                project: project@,
                services: services.deep_view(),
            },
            Flow::AwaitHours { customer, project, service } => FlowView::AwaitHours {
                customer: customer@,
                project: project@,
                service: service@,
            },
            Flow::AwaitNote { customer, project, service, hours } => FlowView::AwaitNote {
                customer: customer@,
                project: project@,
                service: service@,
                hours,
            },
            Flow::AwaitStatus { customer, project, service } => FlowView::AwaitStatus {
                customer: customer@,
                project: project@,
                service: service@,
            },
            Flow::AwaitBody { customer, project, service } => FlowView::AwaitBody {
                customer: customer@,
                project: project@,
                service: service@,
            },
            Flow::Done => FlowView::Done,
            Flow::Failed(failure) => FlowView::Failed(failure),
        }
    }
}

impl View for Event {
    type V = EventView;

    open spec fn view(&self) -> EventView {
        match *self {
            Event::Customers(customers) => EventView::Customers(customers.deep_view()),
            Event::Projects(projects) => EventView::Projects(projects.deep_view()),
            Event::Services(services) => EventView::Services(services.deep_view()),
            Event::Chosen(index) => EventView::Chosen(index),
            Event::Hours(hours) => EventView::Hours(hours),
            Event::Note(note) => EventView::Note(note@),
            Event::Status(status) => EventView::Status(status),
            Event::Body(body) => EventView::Body(body@),
            Event::TransportFailed => EventView::TransportFailed,
            Event::DecodeFailed => EventView::DecodeFailed,
        }
    }
}

impl View for Action {
    type V = ActionView;

    open spec fn view(&self) -> ActionView {
        match *self {
            Action::Fetch(call) => ActionView::Fetch(call),
            Action::Select(prompt) => ActionView::Select(prompt@),
            Action::AskHours { default } => ActionView::AskHours { default },
            Action::AskNote => ActionView::AskNote,
            Action::Submit(entry) => ActionView::Submit(entry@),
            Action::ReadBody => ActionView::ReadBody,
            Action::Report(text) => ActionView::Report(text@),
            Action::Abort(failure) => ActionView::Abort(failure),
        }
    }
}

/// The names of `customers`, in their order.
pub open spec fn customer_names(customers: Seq<CustomerView>) -> Seq<Seq<char>> {
    Seq::new(customers.len(), |i: int| customers[i].name)
}

/// The names of `projects`, in their order.
pub open spec fn project_names(projects: Seq<ProjectView>) -> Seq<Seq<char>> {
    Seq::new(projects.len(), |i: int| projects[i].name)
}

/// The names of `services`, in their order.
pub open spec fn service_names(services: Seq<ServiceView>) -> Seq<Seq<char>> {
    Seq::new(services.len(), |i: int| services[i].name)
}

/// Giving the run up with `failure`.
pub open spec fn stop(failure: Failure) -> (FlowView, ActionView) {
    (FlowView::Failed(failure), ActionView::Abort(failure))
}

/// The failure that a failed request means while `call` is awaited.
pub open spec fn request_failure(call: Call, event: EventView) -> Failure {
    match event {
        EventView::TransportFailed => Failure::Transport(call),
        EventView::DecodeFailed => Failure::Decode(call),
        _ => Failure::OutOfTurn,
    }
}

/// The beginning of a run: the customers are asked for.
pub open spec fn start() -> (FlowView, ActionView) {
    (FlowView::AwaitCustomers, ActionView::Fetch(Call::Customers))
}

/// The state and the action that follow when `event` arrives in `state`.
pub open spec fn step(state: FlowView, event: EventView) -> (FlowView, ActionView) {
    match state {
        FlowView::AwaitCustomers => match event {
            EventView::Customers(customers) => match offer_of(
                Menu::Customers,
                customer_names(customers),
            ) {
                Ok(prompt) => (FlowView::ChoosingCustomer { customers }, ActionView::Select(prompt)),
                Err(failure) => stop(failure),
            },
            _ => stop(request_failure(Call::Customers, event)),
        },
        FlowView::ChoosingCustomer { customers } => match event {
            EventView::Chosen(index) => if index < customers.len() {
                (
                    FlowView::AwaitProjects { customer: customers[index as int] },
                    ActionView::Fetch(Call::Projects),
                )
            } else {
                stop(Failure::InvalidChoice(Menu::Customers))
            },
            _ => stop(Failure::OutOfTurn),
        },
        FlowView::AwaitProjects { customer } => match event {
            EventView::Projects(projects) => {
                let candidates = projects_of(customer.id, projects);
                match offer_of(Menu::Projects, project_names(candidates)) {
                    Ok(prompt) => (
                        FlowView::ChoosingProject { customer, projects: candidates },
                        ActionView::Select(prompt),
                    ),
                    Err(failure) => stop(failure),
                }
            },
            _ => stop(request_failure(Call::Projects, event)),
        },
        FlowView::ChoosingProject { customer, projects } => match event {
            EventView::Chosen(index) => if index < projects.len() {
                (
                    FlowView::AwaitServices { customer, project: projects[index as int] },
                    ActionView::Fetch(Call::Services),
                )
            } else {
                stop(Failure::InvalidChoice(Menu::Projects))
            },
            _ => stop(Failure::OutOfTurn),
        },
        FlowView::AwaitServices { customer, project } => match event {
            EventView::Services(services) => match offer_of(
                Menu::Services,
                service_names(services),
            ) {
                Ok(prompt) => (
                    FlowView::ChoosingService { customer, project, services },
                    ActionView::Select(prompt),
                ),
                Err(failure) => stop(failure),
            },
            _ => stop(request_failure(Call::Services, event)),
        },
        FlowView::ChoosingService { customer, project, services } => match event {
            EventView::Chosen(index) => if index < services.len() {
                (
                    FlowView::AwaitHours { customer, project, service: services[index as int] },
                    ActionView::AskHours { default: DEFAULT_HOURS },
                )
            } else {
                stop(Failure::InvalidChoice(Menu::Services))
            },
            _ => stop(Failure::OutOfTurn),
        },
        FlowView::AwaitHours { customer, project, service } => match event {
            EventView::Hours(hours) => (
                FlowView::AwaitNote { customer, project, service, hours },
                ActionView::AskNote,
            ),
            _ => stop(Failure::OutOfTurn),
        },
        FlowView::AwaitNote { customer, project, service, hours } => match event {
            EventView::Note(note) => (
                FlowView::AwaitStatus { customer, project, service },
                ActionView::Submit(entry_for(hours, project.id, service.id, note)),
            ),
            _ => stop(Failure::OutOfTurn),
        },
        FlowView::AwaitStatus { customer, project, service } => match event {
            EventView::Status(status) => if status == CREATED {
                (FlowView::AwaitBody { customer, project, service }, ActionView::ReadBody)
            } else {
                (FlowView::Done, ActionView::Report(rejection_of(status)))
            },
            _ => stop(request_failure(Call::CreateEntry, event)),
        },
        FlowView::AwaitBody { customer, project, service } => match event {
            EventView::Body(body) => match decoded(body) {
                Ok(receipt) => (FlowView::Done, ActionView::Report(summary_of(receipt))),
                Err(failure) => stop(failure),
            },
            _ => stop(request_failure(Call::CreateEntry, event)),
        },
        FlowView::Done => (state, ActionView::Abort(Failure::OutOfTurn)),
        FlowView::Failed(_) => (state, ActionView::Abort(Failure::OutOfTurn)),
    }
}

impl FlowView {
    /// Whether the run is over.
    pub open spec fn is_over(self) -> bool {
        self is Done || self is Failed
    }

    /// How far the run has come: the number of steps behind it.
    pub open spec fn stage(self) -> nat {
        match self {
            FlowView::AwaitCustomers => 0,
            FlowView::ChoosingCustomer { .. } => 1,
            FlowView::AwaitProjects { .. } => 2,
            FlowView::ChoosingProject { .. } => 3,
            FlowView::AwaitServices { .. } => 4,
            FlowView::ChoosingService { .. } => 5,
            FlowView::AwaitHours { .. } => 6,
            FlowView::AwaitNote { .. } => 7,
            FlowView::AwaitStatus { .. } => 8,
            FlowView::AwaitBody { .. } => 9,
            FlowView::Done => 10,
            FlowView::Failed(_) => 10,
        }
    }

    /// The lines that the user is choosing from, none where no menu is
    /// open.
    pub open spec fn offered(self) -> Seq<Seq<char>> {
        match self {
            FlowView::ChoosingCustomer { customers } => customer_names(customers),
            FlowView::ChoosingProject { projects, .. } => project_names(projects),
            FlowView::ChoosingService { services, .. } => service_names(services),
            _ => Seq::empty(),
        }
    }

    /// What holds of every state of a run: an open menu has something to
    /// choose from, the projects on offer are those of the chosen customer,
    /// and a chosen project belongs to the chosen customer.
    pub open spec fn consistent(self) -> bool {
        match self {
            FlowView::ChoosingCustomer { customers } => customers.len() > 0,
            FlowView::ChoosingProject { customer, projects } => {
                &&& projects.len() > 0
                &&& forall|i: int|
                    0 <= i < projects.len() ==> (#[trigger] projects[i]).customer_id == customer.id
            },
            FlowView::AwaitServices { customer, project } => project.customer_id == customer.id,
            FlowView::ChoosingService { customer, project, services } => {
                &&& project.customer_id == customer.id
                &&& services.len() > 0
            },
            FlowView::AwaitHours { customer, project, .. } => project.customer_id == customer.id,
            FlowView::AwaitNote { customer, project, .. } => project.customer_id == customer.id,
            FlowView::AwaitStatus { customer, project, .. } => project.customer_id == customer.id,
            FlowView::AwaitBody { customer, project, .. } => project.customer_id == customer.id,
            _ => true,
        }
    }
}

/// The steps come in one order: customer, project, service, hours, note,
/// submission, answer. An event either moves a run on by exactly one step
/// or ends it; it ends with a report only once the entry was submitted, and
/// a run that is over stays as it is.
pub proof fn lemma_steps_in_order(state: FlowView, event: EventView)
    ensures
        start().0.stage() == 0,
        state.is_over() ==> step(state, event).0 == state,
        !state.is_over() ==> step(state, event).0.is_over() || step(state, event).0.stage()
            == state.stage() + 1,
        step(state, event).0 is Done ==> state is AwaitStatus || state is AwaitBody || state
            is Done,
{
}

/// What each step asks for: a state that is reached without failure hands
/// out the action of its stage, and a failure hands out its own report.
pub proof fn lemma_action_of_stage(state: FlowView, event: EventView)
    requires
        !state.is_over(),
    ensures
        ({
            let (next, action) = step(state, event);
            match next {
                FlowView::AwaitCustomers => false,
                FlowView::ChoosingCustomer { .. } => action is Select && action->Select_0.menu
                    == Menu::Customers,
                FlowView::AwaitProjects { .. } => action == ActionView::Fetch(Call::Projects),
                FlowView::ChoosingProject { .. } => action is Select && action->Select_0.menu
                    == Menu::Projects,
                FlowView::AwaitServices { .. } => action == ActionView::Fetch(Call::Services),
                FlowView::ChoosingService { .. } => action is Select && action->Select_0.menu
                    == Menu::Services && action->Select_0.paged,
                FlowView::AwaitHours { .. } => action == (ActionView::AskHours { default: 8 }),
                FlowView::AwaitNote { .. } => action == ActionView::AskNote,
                FlowView::AwaitStatus { .. } => action is Submit,
                FlowView::AwaitBody { .. } => action == ActionView::ReadBody,
                FlowView::Done => action is Report,
                FlowView::Failed(failure) => action == ActionView::Abort(failure),
            }
        }),
{
}

/// Every state of a run is consistent: the first one is, and a step from a
/// consistent state leads to a consistent state.
pub proof fn lemma_consistent(state: FlowView, event: EventView)
    ensures
        start().0.consistent(),
        state.consistent() ==> step(state, event).0.consistent(),
{
    if let FlowView::AwaitProjects { customer } = state {
        if let EventView::Projects(projects) = event {
            let owned = |p: ProjectView| p.customer_id == customer.id;
            let candidates = projects_of(customer.id, projects);
            assert forall|i: int| 0 <= i < candidates.len() implies (#[trigger] candidates[i]).customer_id
                == customer.id by {
                projects.lemma_filter_pred(owned, i);
            }
        }
    }
}

/// A menu is only ever put to the user with a line to choose and with the
/// highlighted index on one of its lines, and its lines are the names of
/// the records that the new state holds, one for each and in their order.
pub proof fn lemma_prompt_in_bounds(state: FlowView, event: EventView)
    ensures
        step(state, event).1 matches ActionView::Select(prompt) ==> {
            &&& prompt.well_formed()
            &&& prompt.default == 0
            &&& prompt.labels == step(state, event).0.offered()
        },
{
}

/// A choice is taken only where it is one of the offered lines, and then
/// the record of that line is the one that is kept; any other index gives
/// the run up.
pub proof fn lemma_choice_in_bounds(state: FlowView, index: usize)
    ensures
        ({
            let next = step(state, EventView::Chosen(index)).0;
            match state {
                FlowView::ChoosingCustomer { customers } => if index < customers.len() {
                    next == (FlowView::AwaitProjects { customer: customers[index as int] })
                } else {
                    next == FlowView::Failed(Failure::InvalidChoice(Menu::Customers))
                },
                FlowView::ChoosingProject { customer, projects } => if index < projects.len() {
                    next == (FlowView::AwaitServices { customer, project: projects[index as int] })
                } else {
                    next == FlowView::Failed(Failure::InvalidChoice(Menu::Projects))
                },
                FlowView::ChoosingService { customer, project, services } => if index
                    < services.len() {
                    next == (FlowView::AwaitHours {
                        customer,
                        project,
                        service: services[index as int],
                    })
                } else {
                    next == FlowView::Failed(Failure::InvalidChoice(Menu::Services))
                },
                FlowView::Done => next == state,
                FlowView::Failed(_) => next == state,
                _ => next == FlowView::Failed(Failure::OutOfTurn),
            }
        }),
{
}

/// The projects put to the user are exactly the listed projects of the
/// chosen customer, in the order of the list: a project of another customer
/// is never among them, and none of the customer's own is left out. Where
/// the customer has none, the run is given up for want of a choice.
pub proof fn lemma_project_candidates(customer: CustomerView, projects: Seq<ProjectView>)
    ensures
        ({
            let candidates = projects_of(customer.id, projects);
            let (next, action) = step(
                FlowView::AwaitProjects { customer },
                EventView::Projects(projects),
            );
            &&& forall|p: ProjectView|
                #[trigger] candidates.contains(p) <==> projects.contains(p) && p.customer_id
                    == customer.id
            &&& candidates.len() > 0 ==> next == (FlowView::ChoosingProject {
                customer,
                projects: candidates,
            }) && action is Select && action->Select_0.labels == project_names(candidates)
            &&& candidates.len() == 0 ==> (next, action) == stop(
                Failure::EmptySelection(Menu::Projects),
            )
        }),
{
    lemma_projects_of_exact(customer.id, projects);
}

/// An empty list of customers or of services gives the run up for want of
/// a choice; no menu is put to the user.
pub proof fn lemma_empty_list_refused(customer: CustomerView, project: ProjectView)
    ensures
        step(FlowView::AwaitCustomers, EventView::Customers(Seq::empty())) == stop(
            Failure::EmptySelection(Menu::Customers),
        ),
        step(FlowView::AwaitServices { customer, project }, EventView::Services(Seq::empty()))
            == stop(Failure::EmptySelection(Menu::Services)),
{
}

/// The entry that is submitted is made of the chosen project and service,
/// the note as it was entered, and sixty minutes for each hour entered.
pub proof fn lemma_submitted_entry(
    customer: CustomerView,
    project: ProjectView,
    service: ServiceView,
    hours: u32,
    note: Seq<char>,
)
    ensures
        step(
            FlowView::AwaitHours { customer, project, service },
            EventView::Hours(hours),
        ).0 == (FlowView::AwaitNote { customer, project, service, hours }),
        step(FlowView::AwaitNote { customer, project, service, hours }, EventView::Note(note)).1
            matches ActionView::Submit(entry) && entry.minutes == hours * 60 && entry.project_id
            == project.id && entry.service_id == service.id && entry.note == note,
{
}

/// An answer with another status than 201 ends the run normally with the
/// line that states the status, and its body is never asked for. An answer
/// with status 201 has its body read, and the run ends with what the answer
/// means as a whole: the summary of the receipt, or a decode failure.
pub proof fn lemma_answer(
    customer: CustomerView,
    project: ProjectView,
    service: ServiceView,
    status: u16,
    body: Seq<u8>,
)
    ensures
        ({
            let (waiting, first) = step(
                FlowView::AwaitStatus { customer, project, service },
                EventView::Status(status),
            );
            let (last, second) = step(waiting, EventView::Body(body));
            &&& status != 201 ==> waiting == FlowView::Done && first == ActionView::Report(
                rejection_of(status),
            ) && reply_of(status, body) == Err::<ReceiptView, Failure>(
                Failure::SubmissionRejected(status),
            )
            &&& status == 201 ==> first == ActionView::ReadBody && match reply_of(status, body) {
                Ok(receipt) => last == FlowView::Done && second == ActionView::Report(
                    summary_of(receipt),
                ),
                Err(failure) => failure == Failure::Decode(Call::CreateEntry) && (last, second)
                    == stop(failure),
            }
        }),
{
}

/// Gives the run up with `failure`.
fn give_up(failure: Failure) -> (next: (Flow, Action))
    ensures
        (next.0@, next.1@) == stop(failure),
{
    (Flow::Failed(failure), Action::Abort(failure))
}

/// The failure that `event` means while the answer to `call` is awaited
/// and `event` is not that answer.
fn failed_request(call: Call, event: &Event) -> (failure: Failure)
    ensures
        failure == request_failure(call, event@),
{
    match event {
        Event::TransportFailed => Failure::Transport(call),
        Event::DecodeFailed => Failure::Decode(call),
        _ => Failure::OutOfTurn,
    }
}

/// The labels of customers are their names.
proof fn lemma_customer_labels(customers: Vec<Customer>)
    ensures
        labels_of(customers@) == customer_names(customers.deep_view()),
{
    assert(labels_of(customers@) =~= customer_names(customers.deep_view()));
}

/// The labels of projects are their names.
proof fn lemma_project_labels(projects: Vec<Project>)
    ensures
        labels_of(projects@) == project_names(projects.deep_view()),
{
    assert(labels_of(projects@) =~= project_names(projects.deep_view()));
}

/// The labels of services are their names.
proof fn lemma_service_labels(services: Vec<Service>)
    ensures
        labels_of(services@) == service_names(services.deep_view()),
{
    assert(labels_of(services@) =~= service_names(services.deep_view()));
}

impl Flow {
    /// Begins a run: nothing is chosen yet, and the customers are to be
    /// fetched.
    pub fn start() -> (first: (Flow, Action))
        ensures
            (first.0@, first.1@) == start(),
    {
        (Flow::AwaitCustomers, Action::Fetch(Call::Customers))
    }

    /// Whether the run is over, so that no further event is expected.
    pub fn is_over(&self) -> (over: bool)
        ensures
            over == (self@ is Done || self@ is Failed),
    {
        match self {
            Flow::Done => true,
            Flow::Failed(_) => true,
            _ => false,
        }
    }

    /// Takes the outcome of the last action and says what follows.
    ///
    /// The new state and the action are those that [`step`] gives for the
    /// state and the event: an event that the state did not ask for, a
    /// failed request, an empty menu and a choice beyond the menu each give
    /// the run up with their failure; a run that is over stays as it is.
    pub fn advance(self, event: Event) -> (next: (Flow, Action))
        ensures
            (next.0@, next.1@) == step(self@, event@),
    {
        match self {
            Flow::AwaitCustomers => match event {
                Event::Customers(customers) => {
                    proof {
                        lemma_customer_labels(customers);
                    }
                    match offer(Menu::Customers, &customers) {
                        Ok(prompt) => (Flow::ChoosingCustomer { customers }, Action::Select(prompt)),
                        Err(failure) => give_up(failure),
                    }
                },
                other => give_up(failed_request(Call::Customers, &other)),
            },
            Flow::ChoosingCustomer { customers } => match event {
                Event::Chosen(index) => match pick(Menu::Customers, customers, index) {
                    Ok(customer) => (Flow::AwaitProjects { customer }, Action::Fetch(Call::Projects)),
                    Err(failure) => give_up(failure),
                },
                _ => give_up(Failure::OutOfTurn),
            },
            Flow::AwaitProjects { customer } => match event {
                Event::Projects(projects) => {
                    let candidates = projects_for(customer.id, &projects);
                    proof {
                        lemma_project_labels(candidates);
                    }
                    match offer(Menu::Projects, &candidates) {
                        Ok(prompt) => (
                            Flow::ChoosingProject { customer, projects: candidates },
                            Action::Select(prompt),
                        ),
                        Err(failure) => give_up(failure),
                    }
                },
                other => give_up(failed_request(Call::Projects, &other)),
            },
            Flow::ChoosingProject { customer, projects } => match event {
                Event::Chosen(index) => match pick(Menu::Projects, projects, index) {
                    Ok(project) => (
                        Flow::AwaitServices { customer, project },
                        Action::Fetch(Call::Services),
                    ),
                    Err(failure) => give_up(failure),
                },
                _ => give_up(Failure::OutOfTurn),
            },
            Flow::AwaitServices { customer, project } => match event {
                Event::Services(services) => {
                    proof {
                        lemma_service_labels(services);
                    }
                    match offer(Menu::Services, &services) {
                        Ok(prompt) => (
                            Flow::ChoosingService { customer, project, services },
                            Action::Select(prompt),
                        ),
                        Err(failure) => give_up(failure),
                    }
                },
                other => give_up(failed_request(Call::Services, &other)),
            },
            Flow::ChoosingService { customer, project, services } => match event {
                Event::Chosen(index) => match pick(Menu::Services, services, index) {
                    Ok(service) => (
                        Flow::AwaitHours { customer, project, service },
                        Action::AskHours { default: DEFAULT_HOURS },
                    ),
                    Err(failure) => give_up(failure),
                },
                _ => give_up(Failure::OutOfTurn),
            },
            Flow::AwaitHours { customer, project, service } => match event {
                Event::Hours(hours) => (
                    Flow::AwaitNote { customer, project, service, hours },
                    Action::AskNote,
                ),
                _ => give_up(Failure::OutOfTurn),
            },
            Flow::AwaitNote { customer, project, service, hours } => match event {
                Event::Note(note) => {
                    let entry = TimeEntry::new(hours, &project, &service, note);
                    (Flow::AwaitStatus { customer, project, service }, Action::Submit(entry))
                },
                _ => give_up(Failure::OutOfTurn),
            },
            Flow::AwaitStatus { customer, project, service } => match event {
                Event::Status(status) => if status == CREATED {
                    (Flow::AwaitBody { customer, project, service }, Action::ReadBody)
                } else {
                    (Flow::Done, Action::Report(rejection_line(status)))
                },
                other => give_up(failed_request(Call::CreateEntry, &other)),
            },
            Flow::AwaitBody { customer, project, service } => match event {
                Event::Body(body) => match decode_receipt(body.as_slice()) {
                    Ok(receipt) => (Flow::Done, Action::Report(receipt.summary())),
                    Err(failure) => give_up(failure),
                },
                other => give_up(failed_request(Call::CreateEntry, &other)),
            },
            Flow::Done => (Flow::Done, Action::Abort(Failure::OutOfTurn)),
            Flow::Failed(failure) => (Flow::Failed(failure), Action::Abort(Failure::OutOfTurn)),
        }
    }
}

} // verus!
