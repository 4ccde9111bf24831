use portfolio::content::{shelves, sites};

#[test]
fn shelves_of_the_site() {
    let catalog = shelves();
    assert_eq!(catalog.len(), 2);
    assert_eq!(catalog[0].name, "Personal Projects");
    assert_eq!(catalog[1].name, "Freelance Experience");
    let personal: Vec<&str> = catalog[0].projects.iter().map(|p| p.name).collect();
    assert_eq!(
        personal,
        vec![
            "Whiteboard",
            "Lithobox/Lithophy",
            "Flightpath",
            "Blackboard Notify",
            "Internet Lamp",
            "baqpaq",
            "Modette",
            "PiCast",
            "SeRoku",
            "Invman",
            "HMS",
            "pshbtn",
        ]
    );
    let freelance: Vec<&str> = catalog[1].projects.iter().map(|p| p.name).collect();
    assert_eq!(freelance, vec!["Escape Room", "Drowsy Driver", "Internet Radio", "Test Grader"]);
}

#[test]
fn descriptions_of_the_site() {
    let catalog = shelves();
    assert_eq!(
        catalog[0].projects[0].description,
        "A simple collaborative drawing web app utilizing Socket.IO. This app works on mobile and desktop, which provided me with some challenges implementing gesture recognition."
    );
    assert_eq!(
        catalog[0].projects[9].description,
        "A minimal inventory management system for use with load cells connected to an ESP8266. This project is still in it's early statges, but I think it has a lot of potential for automation."
    );
    assert_eq!(
        catalog[1].projects[3].description,
        "An automatic test grader that scans a test sheet like a scantron and tells the user their score using openCV. This job was rather challenging due to my then lack of experience using computer vision."
    );
    for shelf in &catalog {
        for project in &shelf.projects {
            assert!(!project.description.is_empty());
        }
    }
}

#[test]
fn links_of_the_site() {
    let links = sites();
    let all: Vec<(&str, &str, &str)> = links.iter().map(|s| (s.url, s.color, s.icon)).collect();
    assert_eq!(
        all,
        vec![
            ("https://www.youtube.com/JMANN240", "#c4302b", "fa-youtube"),
            ("https://github.com/JMANN240", "#4078c0", "fa-github"),
            ("https://stackoverflow.com/users/14108612/jt-raber", "#f48024", "fa-stack-overflow"),
            ("https://www.linkedin.com/in/johnathon-raber-926b63209/", "#2867b2", "fa-linkedin"),
        ]
    );
}
