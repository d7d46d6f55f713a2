use might::failure::{Failure, Menu};
use might::model::{Customer, Project, Service};
use might::select::{labels, offer, paged, pick, projects_for, Labeled, Prompt, DEFAULT_CHOICE};

fn customer(id: u32, name: &str) -> Customer {
    Customer { id, name: name.to_string(), archived: false }
}

fn project_of(id: u32, name: &str, customer_id: u32) -> Project {
    Project { id, name: name.to_string(), note: String::new(), customer_id }
}

fn service_named(id: u32, name: &str) -> Service {
    Service { id, name: name.to_string(), archived: false, billable: false, note: String::new() }
}

#[test]
fn label_is_the_name() {
    assert_eq!(customer(1, "Acme").label(), "Acme");
    assert_eq!(project_of(10, "Website", 1).label(), "Website");
    assert_eq!(service_named(5, "Dev").label(), "Dev");
}

#[test]
fn labels_keep_the_order_of_the_list() {
    let list = vec![customer(3, "c"), customer(1, "a"), customer(2, "b")];
    assert_eq!(labels(&list), vec!["c".to_string(), "a".to_string(), "b".to_string()]);
    let none: Vec<Customer> = Vec::new();
    assert_eq!(labels(&none), Vec::<String>::new());
}

#[test]
fn offer_has_a_line_for_each_item_and_highlights_the_first() {
    let list = vec![customer(1, "Acme"), customer(2, "Globex"), customer(3, "Initech")];
    let prompt = offer(Menu::Customers, &list).unwrap();
    assert_eq!(
        prompt,
        Prompt {
            menu: Menu::Customers,
            labels: vec!["Acme".to_string(), "Globex".to_string(), "Initech".to_string()],
            default: 0,
            paged: false,
        }
    );
    assert_eq!(prompt.labels.len(), list.len());
    assert!(prompt.default < prompt.labels.len());
    assert_eq!(DEFAULT_CHOICE, 0);
}

#[test]
fn offer_of_one_item() {
    let list = vec![project_of(10, "Website", 1)];
    let prompt = offer(Menu::Projects, &list).unwrap();
    assert_eq!(prompt.labels, vec!["Website".to_string()]);
    assert_eq!(prompt.default, 0);
    assert!(!prompt.paged);
}

#[test]
fn only_the_services_are_paged() {
    assert!(paged(Menu::Services));
    assert!(!paged(Menu::Customers));
    assert!(!paged(Menu::Projects));
    let prompt = offer(Menu::Services, &vec![service_named(5, "Dev")]).unwrap();
    assert!(prompt.paged);
}

#[test]
fn empty_list_is_not_offered() {
    let customers: Vec<Customer> = Vec::new();
    assert_eq!(offer(Menu::Customers, &customers), Err(Failure::EmptySelection(Menu::Customers)));
    let projects: Vec<Project> = Vec::new();
    assert_eq!(offer(Menu::Projects, &projects), Err(Failure::EmptySelection(Menu::Projects)));
    let services: Vec<Service> = Vec::new();
    assert_eq!(offer(Menu::Services, &services), Err(Failure::EmptySelection(Menu::Services)));
}

#[test]
fn pick_takes_the_item_at_the_index() {
    let list = vec![customer(1, "Acme"), customer(2, "Globex"), customer(3, "Initech")];
    assert_eq!(pick(Menu::Customers, list.clone(), 0), Ok(customer(1, "Acme")));
    assert_eq!(pick(Menu::Customers, list.clone(), 1), Ok(customer(2, "Globex")));
    assert_eq!(pick(Menu::Customers, list, 2), Ok(customer(3, "Initech")));
}

#[test]
fn pick_refuses_an_index_beyond_the_list() {
    let list = vec![customer(1, "Acme"), customer(2, "Globex")];
    assert_eq!(pick(Menu::Customers, list.clone(), 2), Err(Failure::InvalidChoice(Menu::Customers)));
    assert_eq!(pick(Menu::Projects, list, usize::MAX), Err(Failure::InvalidChoice(Menu::Projects)));
    let none: Vec<Service> = Vec::new();
    assert_eq!(pick(Menu::Services, none, 0), Err(Failure::InvalidChoice(Menu::Services)));
}

#[test]
fn every_offered_index_can_be_picked() {
    let list = vec![customer(1, "a"), customer(2, "b"), customer(3, "c"), customer(4, "d")];
    let prompt = offer(Menu::Customers, &list).unwrap();
    for index in 0..prompt.labels.len() {
        let chosen = pick(Menu::Customers, list.clone(), index).unwrap();
        assert_eq!(chosen.name, prompt.labels[index]);
        assert_eq!(chosen, list[index]);
    }
}

#[test]
fn projects_of_the_chosen_customer() {
    let projects = vec![project_of(10, "Website", 1), project_of(11, "Other", 2)];
    assert_eq!(projects_for(1, &projects), vec![project_of(10, "Website", 1)]);
}

#[test]
fn projects_for_keeps_order_and_repeats() {
    let projects = vec![
        project_of(5, "e", 7),
        project_of(1, "a", 2),
        project_of(4, "d", 7),
        project_of(4, "d", 7),
        project_of(2, "b", 3),
        project_of(3, "c", 7),
    ];
    assert_eq!(
        projects_for(7, &projects),
        vec![
            project_of(5, "e", 7),
            project_of(4, "d", 7),
            project_of(4, "d", 7),
            project_of(3, "c", 7),
        ]
    );
    assert_eq!(projects_for(2, &projects), vec![project_of(1, "a", 2)]);
}

#[test]
fn projects_for_a_customer_without_projects() {
    let projects = vec![project_of(10, "Website", 1), project_of(11, "Other", 2)];
    assert_eq!(projects_for(3, &projects), Vec::<Project>::new());
    assert_eq!(projects_for(1, &Vec::new()), Vec::<Project>::new());
}

#[test]
fn projects_for_is_exactly_the_owned_ones() {
    let projects: Vec<Project> =
        (0..40u32).map(|i| project_of(i, "p", i % 4)).collect();
    for owner in 0..5u32 {
        let kept = projects_for(owner, &projects);
        assert!(kept.iter().all(|p| p.customer_id == owner));
        let expected: Vec<Project> =
            projects.iter().filter(|p| p.customer_id == owner).cloned().collect();
        assert_eq!(kept, expected);
    }
}

#[test]
fn clone_keeps_every_field() {
    let c = Customer { id: 9, name: "Acme".to_string(), archived: true };
    assert_eq!(c.clone(), c);
    let p = Project { id: 1, name: "n".to_string(), note: "x".to_string(), customer_id: 9 };
    assert_eq!(p.clone(), p);
    let s = Service {
        id: 2,
        name: "Dev".to_string(),
        archived: true,
        billable: true,
        note: "y".to_string(),
    };
    assert_eq!(s.clone(), s);
}
