//! Records of the time-tracking service and their mathematical views.
//!
//! A record is a snapshot of what the service sent. Its view holds the same
//! fields, with every text as a sequence of characters; contracts speak of
//! views.

use vstd::prelude::*;

verus! {

/// A billing entity, the root of the customer-to-project hierarchy.
#[derive(Debug, PartialEq, Eq)]
pub struct Customer {
    pub id: u32,
    pub name: String,
    pub archived: bool,
}

/// What a [`Customer`] is, with its text as a sequence of characters.
pub ghost struct CustomerView {
    pub id: u32,
    pub name: Seq<char>,
    pub archived: bool,
}

impl View for Customer {
    type V = CustomerView;

    open spec fn view(&self) -> CustomerView {
        CustomerView { id: self.id, name: self.name@, archived: self.archived }
    }
}

impl DeepView for Customer {
    type V = CustomerView;

    open spec fn deep_view(&self) -> CustomerView {
        self@
    }
}

impl Clone for Customer {
    fn clone(&self) -> (copy: Customer)
        ensures
            copy@ == self@,
    {
        Customer { id: self.id, name: self.name.clone(), archived: self.archived }
    }
}

/// A unit of work that belongs to exactly one customer.
#[derive(Debug, PartialEq, Eq)]
pub struct Project {
    pub id: u32,
    pub name: String,
    pub note: String,
    /// The identifier of the customer that owns the project.
    pub customer_id: u32,
}

/// What a [`Project`] is, with its texts as sequences of characters.
pub ghost struct ProjectView {
    pub id: u32,
    pub name: Seq<char>,
    pub note: Seq<char>,
    pub customer_id: u32,
}

impl View for Project {
    type V = ProjectView;

    open spec fn view(&self) -> ProjectView {
        ProjectView {
            id: self.id,
            name: self.name@,
            note: self.note@,
            customer_id: self.customer_id,
        }
    }
}

impl DeepView for Project {
    type V = ProjectView;

    open spec fn deep_view(&self) -> ProjectView {
        self@
    }
}

impl Clone for Project {
    fn clone(&self) -> (copy: Project)
        ensures
            copy@ == self@,
    {
        Project {
            id: self.id,
            name: self.name.clone(),
            note: self.note.clone(),
            customer_id: self.customer_id,
        }
    }
}

/// An activity type that can be logged against any project.
#[derive(Debug, PartialEq, Eq)]
pub struct Service {
    pub id: u32,
    pub name: String,
    pub archived: bool,
    pub billable: bool,
    pub note: String,
}

/// What a [`Service`] is, with its texts as sequences of characters.
pub ghost struct ServiceView {
    pub id: u32,
    pub name: Seq<char>,
    pub archived: bool,
    pub billable: bool,
    pub note: Seq<char>,
}

impl View for Service {
    type V = ServiceView;

    open spec fn view(&self) -> ServiceView {
        ServiceView {
            id: self.id,
            name: self.name@,
            archived: self.archived,
            billable: self.billable,
            note: self.note@,
        }
    }
}

impl DeepView for Service {
    type V = ServiceView;

    open spec fn deep_view(&self) -> ServiceView {
        self@
    }
}

impl Clone for Service {
    fn clone(&self) -> (copy: Service)
        ensures
            copy@ == self@,
    {
        Service {
            id: self.id,
            name: self.name.clone(),
            archived: self.archived,
            billable: self.billable,
            note: self.note.clone(),
        }
    }
}

} // verus!
