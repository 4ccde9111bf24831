//! The content of the site: shelves of projects and links to profiles
//! elsewhere. The catalog is fixed; nothing in it comes from a request.

use vstd::prelude::*;

verus! {

/// One portfolio entry.
pub struct Project {
    pub name: &'static str,
    pub description: &'static str,
}

/// A named group of portfolio entries, in display order.
pub struct Shelf {
    pub name: &'static str,
    pub projects: Vec<Project>,
}

/// A link to a profile elsewhere, with the color and the icon it is shown in.
pub struct Site {
    pub url: &'static str,
    pub color: &'static str,
    pub icon: &'static str,
}

pub ghost struct ProjectView {
    pub name: Seq<char>,
    pub description: Seq<char>,
}

pub ghost struct ShelfView {
    pub name: Seq<char>,
    pub projects: Seq<ProjectView>,
}

pub ghost struct SiteView {
    pub url: Seq<char>,
    pub color: Seq<char>,
    pub icon: Seq<char>,
}

impl View for Project {
    type V = ProjectView;

    open spec fn view(&self) -> ProjectView {
        ProjectView { name: self.name@, description: self.description@ }
    }
}

impl View for Shelf {
    type V = ShelfView;

    open spec fn view(&self) -> ShelfView {
        ShelfView { name: self.name@, projects: project_views(self.projects@) }
    }
}

impl View for Site {
    type V = SiteView;

    open spec fn view(&self) -> SiteView {
        SiteView { url: self.url@, color: self.color@, icon: self.icon@ }
    }
}

/// The entries of a list of projects, in the same order.
pub open spec fn project_views(projects: Seq<Project>) -> Seq<ProjectView> {
    Seq::new(projects.len(), |i: int| projects[i]@)
}

/// The shelves of a list, in the same order.
pub open spec fn shelf_views(shelves: Seq<Shelf>) -> Seq<ShelfView> {
    Seq::new(shelves.len(), |i: int| shelves[i]@)
}

/// The links of a list, in the same order.
pub open spec fn site_views(sites: Seq<Site>) -> Seq<SiteView> {
    Seq::new(sites.len(), |i: int| sites[i]@)
}

/// A project as the catalog lists it.
pub open spec fn entry(name: &str, description: &str) -> ProjectView {
    ProjectView { name: name@, description: description@ }
}

/// A link as the catalog lists it.
pub open spec fn link(url: &str, color: &str, icon: &str) -> SiteView {
    SiteView { url: url@, color: color@, icon: icon@ }
}

pub const PERSONAL_PROJECTS: &'static str = "Personal Projects";

pub const WHITEBOARD: &'static str = "Whiteboard";

pub const WHITEBOARD_ABOUT: &'static str =
    "A simple collaborative drawing web app utilizing Socket.IO. This app works on mobile and desktop, which provided me with some challenges implementing gesture recognition.";

pub const LITHOBOX: &'static str = "Lithobox/Lithophy";

pub const LITHOBOX_ABOUT: &'static str =
    "A customizable web interface for controlling an RGB lithophane cube. I plan on selling these, so the infrastructure had to be sound. I also made a Blender add-on that turns an image into a ready-to-print lithophane. This was created out of convenience for Lithobox.";

pub const FLIGHTPATH: &'static str = "Flightpath";

pub const FLIGHTPATH_ABOUT: &'static str =
    "Complex spaces can be difficult to naviate, and Flightpath can help. Originally a hackathon project meant to help users navigate an airport, it has grown to encompass more spaces. Ease-of-use and accessibility were of utmost importance when designing this project.";

pub const BLACKBOARD_NOTIFY: &'static str = "Blackboard Notify";

pub const BLACKBOARD_NOTIFY_ABOUT: &'static str =
    "During my time as a virtual tutor there were many long stretches of time when no students would show up. To free myself some time I wrote a Firefox extension that flashes my internet-controlled lamp when a student joins or messages the chat.";

pub const INTERNET_LAMP: &'static str = "Internet Lamp";

pub const INTERNET_LAMP_ABOUT: &'static str =
    "An ESP8266-based project that allows me (or anyone with internet access) to control a lamp in my room. This project was built from scratch, using Flask and Socket.IO. The lamp was made smart by cutting open it's wires and passing them through a relay controlled by the ESP8266.";

pub const BAQPAQ: &'static str = "baqpaq";

pub const BAQPAQ_ABOUT: &'static str =
    "A simple site to hold your commonly used code snippets. Share with others and gain knowledge. Kind of like stack overflow but less for learning and more for storing your snippets and finding others that might be useful.";

pub const MODETTE: &'static str = "Modette";

pub const MODETTE_ABOUT: &'static str =
    "The marker board outside of my room kept getting erased, so I decided to use my technomancy skills and create a motion detector using a Raspberry Pi. This project works by capturing an initial image of the area to be watched, and recording a video if too many pixels are too different.";

pub const PICAST: &'static str = "PiCast";

pub const PICAST_ABOUT: &'static str =
    "This project was created to test out WebRTC for myself. It is a simple screen-sharing web app that lets a user share their screen to a room or join a room and watch someone else's screen. I use this to cast my desktop to my TV using a Raspberry Pi.";

pub const SEROKU: &'static str = "SeRoku";

pub const SEROKU_ABOUT: &'static str =
    "A customizable remote server for a Roku TV. This uses Roku's ECP API with an ESP8266 web server. The user can customize 6 buttons that launch apps on their TV. This project was definitely a fun one and I learned a lot about embedded web servers.";

pub const INVMAN: &'static str = "Invman";

pub const INVMAN_ABOUT: &'static str =
    "A minimal inventory management system for use with load cells connected to an ESP8266. This project is still in it's early statges, but I think it has a lot of potential for automation.";

pub const HMS: &'static str = "HMS";

pub const HMS_ABOUT: &'static str =
    "HMS stands for Home Media Server. I wrote this out of necessity because I listen to a lot of playlists from YouTube and don't have great internet access at my house. So I would take my laptop somewhere with better connection, download the playlists, and then run HMS on my laptop to server the files to my desktop on my home network.";

pub const PSHBTN: &'static str = "pshbtn";

pub const PSHBTN_ABOUT: &'static str =
    "This is a very simple productivity web app inspired by Simone Giertz's Every Day Calendar. There are 100 buttons on the screen. When you tap/click on one it will light up and make a satisfying 'click' noise. This project was very CSS heavy to make the most satisfying UX I could.";

pub const FREELANCE_EXPERIENCE: &'static str = "Freelance Experience";

pub const ESCAPE_ROOM: &'static str = "Escape Room";

pub const ESCAPE_ROOM_ABOUT: &'static str =
    "An interface for a simulated CCTV in an escape room. This project utilized SSH technology in conjuction with Python to send commands to a remote server for the game.";

pub const DROWSY_DRIVER: &'static str = "Drowsy Driver";

pub const DROWSY_DRIVER_ABOUT: &'static str =
    "A system that uses a heart rate monitor and an IR camera to detect when a driver is falling asleep while driving. The project used facial recognition to detect when the driver's eyes were closed for a given amount of time and would alert them with a buzzer and flashing light.";

pub const INTERNET_RADIO: &'static str = "Internet Radio";

pub const INTERNET_RADIO_ABOUT: &'static str =
    "An internet radio/mp3 player using a Raspberry Pi. The audio source was controlled using a rotary encoder attached to the Pi, and the play/pause functionality was added using buttons.";

pub const TEST_GRADER: &'static str = "Test Grader";

pub const TEST_GRADER_ABOUT: &'static str =
    "An automatic test grader that scans a test sheet like a scantron and tells the user their score using openCV. This job was rather challenging due to my then lack of experience using computer vision.";

pub const YOUTUBE_URL: &'static str = "https://www.youtube.com/JMANN240";

pub const YOUTUBE_COLOR: &'static str = "#c4302b";

pub const YOUTUBE_ICON: &'static str = "fa-youtube";

pub const GITHUB_URL: &'static str = "https://github.com/JMANN240";

pub const GITHUB_COLOR: &'static str = "#4078c0";

pub const GITHUB_ICON: &'static str = "fa-github";

pub const STACK_OVERFLOW_URL: &'static str = "https://stackoverflow.com/users/14108612/jt-raber";

pub const STACK_OVERFLOW_COLOR: &'static str = "#f48024";

pub const STACK_OVERFLOW_ICON: &'static str = "fa-stack-overflow";

pub const LINKEDIN_URL: &'static str = "https://www.linkedin.com/in/johnathon-raber-926b63209/";

pub const LINKEDIN_COLOR: &'static str = "#2867b2";

pub const LINKEDIN_ICON: &'static str = "fa-linkedin";

/// What was built for its own sake, in display order.
pub open spec fn personal_projects_entries() -> Seq<ProjectView> {
    seq![
        entry(WHITEBOARD, WHITEBOARD_ABOUT),
        entry(LITHOBOX, LITHOBOX_ABOUT),
        entry(FLIGHTPATH, FLIGHTPATH_ABOUT),
        entry(BLACKBOARD_NOTIFY, BLACKBOARD_NOTIFY_ABOUT),
        entry(INTERNET_LAMP, INTERNET_LAMP_ABOUT),
        entry(BAQPAQ, BAQPAQ_ABOUT),
        entry(MODETTE, MODETTE_ABOUT),
        entry(PICAST, PICAST_ABOUT),
        entry(SEROKU, SEROKU_ABOUT),
        entry(INVMAN, INVMAN_ABOUT),
        entry(HMS, HMS_ABOUT),
        entry(PSHBTN, PSHBTN_ABOUT),
    ]
}

/// What was built for clients, in display order.
pub open spec fn freelance_experience_entries() -> Seq<ProjectView> {
    seq![
        entry(ESCAPE_ROOM, ESCAPE_ROOM_ABOUT),
        entry(DROWSY_DRIVER, DROWSY_DRIVER_ABOUT),
        entry(INTERNET_RADIO, INTERNET_RADIO_ABOUT),
        entry(TEST_GRADER, TEST_GRADER_ABOUT),
    ]
}

/// The shelves of the site, in display order.
pub open spec fn shelf_catalog() -> Seq<ShelfView> {
    seq![
        ShelfView { name: PERSONAL_PROJECTS@, projects: personal_projects_entries() },
        ShelfView { name: FREELANCE_EXPERIENCE@, projects: freelance_experience_entries() },
    ]
}

/// The profile links of the site, in display order.
pub open spec fn site_catalog() -> Seq<SiteView> {
    seq![
        link(YOUTUBE_URL, YOUTUBE_COLOR, YOUTUBE_ICON),
        link(GITHUB_URL, GITHUB_COLOR, GITHUB_ICON),
        link(STACK_OVERFLOW_URL, STACK_OVERFLOW_COLOR, STACK_OVERFLOW_ICON),
        link(LINKEDIN_URL, LINKEDIN_COLOR, LINKEDIN_ICON),
    ]
}

fn personal_projects() -> (projects: Vec<Project>)
    ensures
        project_views(projects@) == personal_projects_entries(),
{
    let projects = vec![
        Project { name: WHITEBOARD, description: WHITEBOARD_ABOUT },
        Project { name: LITHOBOX, description: LITHOBOX_ABOUT },
        Project { name: FLIGHTPATH, description: FLIGHTPATH_ABOUT },
        Project { name: BLACKBOARD_NOTIFY, description: BLACKBOARD_NOTIFY_ABOUT },
        Project { name: INTERNET_LAMP, description: INTERNET_LAMP_ABOUT },
        Project { name: BAQPAQ, description: BAQPAQ_ABOUT },
        Project { name: MODETTE, description: MODETTE_ABOUT },
        Project { name: PICAST, description: PICAST_ABOUT },
        Project { name: SEROKU, description: SEROKU_ABOUT },
        Project { name: INVMAN, description: INVMAN_ABOUT },
        Project { name: HMS, description: HMS_ABOUT },
        Project { name: PSHBTN, description: PSHBTN_ABOUT },
    ];
    assert(project_views(projects@) =~= personal_projects_entries());
    projects
}

fn freelance_experience() -> (projects: Vec<Project>)
    ensures
        project_views(projects@) == freelance_experience_entries(),
{
    let projects = vec![
        Project { name: ESCAPE_ROOM, description: ESCAPE_ROOM_ABOUT },
        Project { name: DROWSY_DRIVER, description: DROWSY_DRIVER_ABOUT },
        Project { name: INTERNET_RADIO, description: INTERNET_RADIO_ABOUT },
        Project { name: TEST_GRADER, description: TEST_GRADER_ABOUT },
    ];
    assert(project_views(projects@) =~= freelance_experience_entries());
    projects
}

/// The shelves of the site.
pub fn shelves() -> (catalog: Vec<Shelf>)
    ensures
        shelf_views(catalog@) == shelf_catalog(),
{
    let catalog = vec![
        Shelf { name: PERSONAL_PROJECTS, projects: personal_projects() },
        Shelf { name: FREELANCE_EXPERIENCE, projects: freelance_experience() },
    ];
    assert(shelf_views(catalog@) =~= shelf_catalog());
    catalog
}

/// The profile links of the site.
pub fn sites() -> (catalog: Vec<Site>)
    ensures
        site_views(catalog@) == site_catalog(),
{
    let catalog = vec![
        Site { url: YOUTUBE_URL, color: YOUTUBE_COLOR, icon: YOUTUBE_ICON },
        Site { url: GITHUB_URL, color: GITHUB_COLOR, icon: GITHUB_ICON },
        Site { url: STACK_OVERFLOW_URL, color: STACK_OVERFLOW_COLOR, icon: STACK_OVERFLOW_ICON },
        Site { url: LINKEDIN_URL, color: LINKEDIN_COLOR, icon: LINKEDIN_ICON },
    ];
    assert(site_views(catalog@) =~= site_catalog());
    catalog
}

} // verus!
