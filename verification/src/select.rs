//! Menus: what is offered to the user and what a choice yields.

use crate::failure::{Failure, Menu};
use crate::model::{Customer, Project, ProjectView, Service};
use vstd::prelude::*;
use vstd::string::*;

verus! {

/// The index that a menu highlights before the user moves.
pub const DEFAULT_CHOICE: usize = 0;

/// A record that can be shown as one line of a menu.
pub trait Labeled {
    /// The text that stands for the record in a menu.
    spec fn label_spec(&self) -> Seq<char>;

    /// The text that stands for the record in a menu.
    fn label(&self) -> (label: &str)
        ensures
            label@ == self.label_spec(),
    ;
}

impl Labeled for Customer {
    open spec fn label_spec(&self) -> Seq<char> {
        self.name@
    }

    fn label(&self) -> (label: &str) {
        self.name.as_str()
    }
}

impl Labeled for Project {
    open spec fn label_spec(&self) -> Seq<char> {
        self.name@
    }

    fn label(&self) -> (label: &str) {
        self.name.as_str()
    }
}

impl Labeled for Service {
    open spec fn label_spec(&self) -> Seq<char> {
        self.name@
    }

    fn label(&self) -> (label: &str) {
        self.name.as_str()
    }
}

/// The labels of `items`, one for each and in their order.
pub open spec fn labels_of<T: Labeled>(items: Seq<T>) -> Seq<Seq<char>> {
    Seq::new(items.len(), |i: int| items[i].label_spec())
}

/// A single-choice question put to the user.
#[derive(Clone, Debug, PartialEq, Eq)]
pub struct Prompt {
    /// The list that is chosen from.
    pub menu: Menu,
    /// One line for each record, in the order in which the service sent them.
    pub labels: Vec<String>,
    /// The index that is highlighted at first.
    pub default: usize,
    /// Whether a long list is shown page by page.
    pub paged: bool,
}

/// What a [`Prompt`] is, with its labels as sequences of characters.
pub ghost struct PromptView {
    pub menu: Menu,
    pub labels: Seq<Seq<char>>,
    pub default: usize,
    pub paged: bool,
}

impl View for Prompt {
    type V = PromptView;

    open spec fn view(&self) -> PromptView {
        PromptView {
            menu: self.menu,
            labels: self.labels.deep_view(),
            default: self.default,
            paged: self.paged,
        }
    }
}

impl PromptView {
    /// A prompt can be shown: it has a line to choose, and the highlighted
    /// index is one of its lines.
    pub open spec fn well_formed(self) -> bool {
        self.default < self.labels.len()
    }
}

/// Whether the menu is shown page by page: the list of services is, since
/// it is not narrowed down by an earlier choice.
pub open spec fn paged_spec(menu: Menu) -> bool {
    menu == Menu::Services
}

/// The prompt for `menu` with the given lines.
pub open spec fn prompt_of(menu: Menu, labels: Seq<Seq<char>>) -> PromptView {
    PromptView { menu, labels, default: DEFAULT_CHOICE, paged: paged_spec(menu) }
}

/// What offering `labels` for `menu` comes to: the prompt, or the failure
/// that there is nothing to choose from.
pub open spec fn offer_of(menu: Menu, labels: Seq<Seq<char>>) -> Result<PromptView, Failure> {
    if labels.len() == 0 {
        Err(Failure::EmptySelection(menu))
    } else {
        Ok(prompt_of(menu, labels))
    }
}

/// A prompt, or the failure to make one, by its view.
pub open spec fn offer_view(outcome: Result<Prompt, Failure>) -> Result<PromptView, Failure> {
    match outcome {
        Ok(prompt) => Ok(prompt@),
        Err(failure) => Err(failure),
    }
}

/// Copies the labels of `items` into a list of their own.
pub fn labels<T: Labeled>(items: &Vec<T>) -> (lines: Vec<String>)
    ensures
        lines.deep_view() == labels_of(items@),
{
    let mut lines: Vec<String> = Vec::new();
    let mut i: usize = 0;
    while i < items.len()
        invariant
            i <= items.len(),
            lines.len() == i,
            forall|j: int| 0 <= j < i ==> (#[trigger] lines[j])@ == items[j].label_spec(),
        decreases items.len() - i,
    {
        lines.push(items[i].label().to_owned());
        i = i + 1;
    }
    assert(lines.deep_view() =~= labels_of(items@));
    lines
}

/// Whether the menu is shown page by page.
pub fn paged(menu: Menu) -> (paged: bool)
    ensures
        paged == paged_spec(menu),
{
    match menu {
        Menu::Services => true,
        _ => false,
    }
}

/// Makes the prompt that offers `items` for `menu`.
///
/// An empty list is refused: there would be no line for the highlighted
/// index to stand on. Otherwise the prompt has one line for each item, in
/// their order, and highlights the first.
pub fn offer<T: Labeled>(menu: Menu, items: &Vec<T>) -> (outcome: Result<Prompt, Failure>)
    ensures
        offer_view(outcome) == offer_of(menu, labels_of(items@)),
        outcome matches Ok(prompt) ==> prompt@.well_formed() && prompt.labels.len()
            == items.len(),
        outcome is Err <==> items.len() == 0,
{
    if items.len() == 0 {
        Err(Failure::EmptySelection(menu))
    } else {
        let lines = labels(items);
        assert(lines.deep_view().len() == items.len());
        Ok(Prompt { menu, labels: lines, default: DEFAULT_CHOICE, paged: paged(menu) })
    }
}

/// Takes the item at `index` out of `items`.
///
/// An index that the menu did not offer is refused.
pub fn pick<T>(menu: Menu, items: Vec<T>, index: usize) -> (outcome: Result<T, Failure>)
    ensures
        index < items.len() ==> outcome == Ok::<T, Failure>(items[index as int]),
        index >= items.len() ==> outcome == Err::<T, Failure>(Failure::InvalidChoice(menu)),
{
    let mut items = items;
    if index < items.len() {
        Ok(items.swap_remove(index))
    } else {
        Err(Failure::InvalidChoice(menu))
    }
}

/// The projects among `projects` that belong to the customer `customer_id`,
/// in their order.
pub open spec fn projects_of(customer_id: u32, projects: Seq<ProjectView>) -> Seq<ProjectView> {
    projects.filter(|p: ProjectView| p.customer_id == customer_id)
}

/// The candidates of a customer are exactly the listed projects that the
/// customer owns: every candidate is listed and owned by the customer, and
/// every listed project that the customer owns is a candidate.
pub proof fn lemma_projects_of_exact(customer_id: u32, projects: Seq<ProjectView>)
    ensures
        forall|p: ProjectView|
            #[trigger] projects_of(customer_id, projects).contains(p) <==> projects.contains(p)
                && p.customer_id == customer_id,
        projects_of(customer_id, projects).len() <= projects.len(),
{
    let owned = |p: ProjectView| p.customer_id == customer_id;
    let kept = projects.filter(owned);
    projects.lemma_filter_len(owned);
    assert forall|p: ProjectView| #[trigger] kept.contains(p) <==> projects.contains(p)
        && p.customer_id == customer_id by {
        if kept.contains(p) {
            projects.lemma_filter_contains_rev(owned, p);
        }
        if projects.contains(p) && p.customer_id == customer_id {
            let i = choose|i: int| 0 <= i < projects.len() && projects[i] == p;
            projects.lemma_filter_contains(owned, i);
        }
    }
}

/// A list that is not empty can always be offered, and the prompt for it
/// has one line for each item and highlights a line that is there; an empty
/// list never can.
pub proof fn lemma_offer_in_bounds(menu: Menu, labels: Seq<Seq<char>>)
    ensures
        labels.len() > 0 ==> offer_of(menu, labels) is Ok && offer_of(menu, labels)->Ok_0.labels
            == labels && offer_of(menu, labels)->Ok_0.well_formed(),
        labels.len() == 0 ==> offer_of(menu, labels) == Err::<PromptView, Failure>(
            Failure::EmptySelection(menu),
        ),
{
}

/// Narrows `projects` down to those of the customer `customer_id`.
///
/// The result holds exactly the projects whose owner is that customer, each
/// once and in the order of `projects`.
pub fn projects_for(customer_id: u32, projects: &Vec<Project>) -> (kept: Vec<Project>)
    ensures
        kept.deep_view() == projects_of(customer_id, projects.deep_view()),
{
    let ghost owned = |p: ProjectView| p.customer_id == customer_id;
    let ghost all = projects.deep_view();
    let mut kept: Vec<Project> = Vec::new();
    let mut i: usize = 0;
    proof {
        reveal(Seq::filter);
        assert(all.take(0) =~= Seq::<ProjectView>::empty());
        assert(kept.deep_view() =~= all.take(0).filter(owned));
    }
    while i < projects.len()
        invariant
            i <= projects.len(),
            all == projects.deep_view(),
            owned == |p: ProjectView| p.customer_id == customer_id,
            kept.deep_view() == all.take(i as int).filter(owned),
        decreases projects.len() - i,
    {
        let ghost before = kept.deep_view();
        proof {
            reveal(Seq::filter);
            assert(all.take(i + 1).drop_last() =~= all.take(i as int));
            assert(all.take(i + 1).last() == projects[i as int]@);
        }
        if projects[i].customer_id == customer_id {
            kept.push(projects[i].clone());
            assert(kept.deep_view() =~= before.push(projects[i as int]@));
        }
        i = i + 1;
    }
    assert(all.take(i as int) =~= all);
    kept
}

} // verus!
