use crate_info::page::{
    view, view_command, view_content, view_crate, view_dependencies, view_dependents, view_info,
    view_readme, view_tab, view_versions,
};
use crate_info::{
    App, Attr, CrateMessage, CrateScreen, Fault, Message, Model, Node, OneOf2, OneOf4, Render,
    Screen, Tab, Version,
};

fn leaf(s: &str) -> Node<Message> {
    Node::Text(String::from(s))
}

fn el(tag: &str, attrs: Vec<Attr<Message>>, children: Vec<Node<Message>>) -> Node<Message> {
    Node::Element { tag: String::from(tag), attrs, children }
}

fn marker(name: &str) -> Attr<Message> {
    Attr::Class(String::from(name))
}

fn tab_label(name: &str, tab: Tab, selected: bool) -> Node<Message> {
    let mut attrs = Vec::new();
    if selected {
        attrs.push(marker("selected"));
    }
    attrs.push(Attr::OnClick(Message::Crate(CrateMessage::Tab(tab))));
    el("li", attrs, vec![el("a", vec![], vec![leaf(name)])])
}

fn info(label: &str, content: Vec<Node<Message>>) -> Node<Message> {
    let mut children = vec![el("label", vec![], vec![leaf(label)])];
    children.extend(content);
    el("li", vec![marker("info")], children)
}

fn command(line: &str) -> Node<Message> {
    el("li", vec![marker("command")], vec![leaf(line)])
}

fn plain_link(label: &str) -> Node<Message> {
    el("a", vec![], vec![leaf(label)])
}

fn version_entry(idx: usize, name: &str) -> Node<Message> {
    Node::Keyed {
        key: idx,
        node: Box::new(el(
            "li",
            vec![marker("version")],
            vec![
                el(
                    "a",
                    vec![
                        marker("name"),
                        Attr::OnClick(Message::Crate(CrateMessage::SelectVersion { idx })),
                    ],
                    vec![leaf(name)],
                ),
                el("div", vec![], vec![leaf("12,000")]),
            ],
        )),
    }
}

fn expected_crate_page(
    name: &str,
    latest: &str,
    selected: &str,
    license: &str,
    tab: Tab,
    content: Vec<Node<Message>>,
) -> Node<Message> {
    el(
        "div",
        vec![marker("container")],
        vec![
            el("h1", vec![], vec![leaf(name)]),
            el("h5", vec![marker("latest-version")], vec![leaf(latest)]),
            el(
                "ul",
                vec![marker("tabs")],
                vec![
                    tab_label("Readme", Tab::Readme, tab == Tab::Readme),
                    tab_label("Versions", Tab::Versions, tab == Tab::Versions),
                    tab_label("Dependencies", Tab::Dependencies, tab == Tab::Dependencies),
                    tab_label("Dependents", Tab::Dependents, tab == Tab::Dependents),
                ],
            ),
            el(
                "div",
                vec![marker("wrap")],
                vec![
                    el("div", vec![marker("content")], content),
                    el(
                        "ul",
                        vec![marker("sidebar")],
                        vec![
                            info("Documentation", vec![plain_link("url")]),
                            info("Repository", vec![plain_link("url")]),
                            info("Homepage", vec![plain_link("url")]),
                            info(
                                "Install",
                                vec![
                                    command(&format!("viewbuilder = {}", selected)),
                                    command("cargo install viewbuilder"),
                                ],
                            ),
                            el(
                                "li",
                                vec![],
                                vec![el(
                                    "ul",
                                    vec![marker("row")],
                                    vec![
                                        info("Version", vec![plain_link(selected)]),
                                        info("License", vec![plain_link(license)]),
                                    ],
                                )],
                            ),
                            info("Last update", vec![leaf("20 hours ago")]),
                        ],
                    ),
                ],
            ),
        ],
    )
}

fn home_link() -> Node<Message> {
    el("a", vec![Attr::OnClick(Message::Screen(Screen::Home))], vec![leaf("Home")])
}

#[test]
fn tab_label_is_marked_when_selected() {
    assert_eq!(
        view_tab("Versions", Tab::Versions, Tab::Versions),
        el(
            "li",
            vec![
                Attr::Class(String::from("selected")),
                Attr::OnClick(Message::Crate(CrateMessage::Tab(Tab::Versions))),
            ],
            vec![el("a", vec![], vec![leaf("Versions")])],
        )
    );
}

#[test]
fn tab_label_has_no_marker_when_not_selected() {
    assert_eq!(
        view_tab("Readme", Tab::Readme, Tab::Dependents),
        el(
            "li",
            vec![Attr::OnClick(Message::Crate(CrateMessage::Tab(Tab::Readme)))],
            vec![el("a", vec![], vec![leaf("Readme")])],
        )
    );
}

#[test]
fn info_entry_puts_the_label_before_the_content() {
    assert_eq!(
        view_info("License", (leaf("MIT"), leaf("Apache-2.0"))),
        el(
            "li",
            vec![marker("info")],
            vec![el("label", vec![], vec![leaf("License")]), leaf("MIT"), leaf("Apache-2.0")],
        )
    );
}

#[test]
fn command_entry_holds_the_command_line() {
    assert_eq!(
        view_command(String::from("cargo install viewbuilder")),
        el("li", vec![marker("command")], vec![leaf("cargo install viewbuilder")])
    );
}

#[test]
fn plain_tabs_are_text() {
    assert_eq!(view_readme(), leaf("Readme"));
    assert_eq!(view_dependencies(), leaf("Dependencies"));
    assert_eq!(view_dependents(), leaf("Dependents"));
}

#[test]
fn version_list_has_one_keyed_entry_per_version() {
    let versions = vec![
        Version { name: String::from("v0.3.0") },
        Version { name: String::from("v0.2.0") },
        Version { name: String::from("v0.1.0") },
    ];
    assert_eq!(
        view_versions(&versions),
        el(
            "ul",
            vec![],
            vec![
                version_entry(0, "v0.3.0"),
                version_entry(1, "v0.2.0"),
                version_entry(2, "v0.1.0"),
            ],
        )
    );
}

#[test]
fn version_list_of_no_version_is_empty() {
    assert_eq!(view_versions(&[]), el("ul", vec![], vec![]));
}

#[test]
fn content_pane_holds_the_alternative_of_the_active_tab() {
    let mut krate = CrateScreen::default();
    assert_eq!(view_content(&krate), OneOf4::A(leaf("Readme")));
    assert_eq!(view_content(&krate).index(), 1);

    krate.tab = Tab::Versions;
    assert_eq!(
        view_content(&krate),
        OneOf4::B(el("ul", vec![], vec![version_entry(0, "v0.10.0"), version_entry(1, "v0.9.0")]))
    );
    assert_eq!(view_content(&krate).index(), 2);

    krate.tab = Tab::Dependencies;
    assert_eq!(view_content(&krate), OneOf4::C(leaf("Dependencies")));
    assert_eq!(view_content(&krate).index(), 3);

    krate.tab = Tab::Dependents;
    assert_eq!(view_content(&krate), OneOf4::D(leaf("Dependents")));
    assert_eq!(view_content(&krate).index(), 4);
}

#[test]
fn flat_tabs_scenario_populates_the_versions_alternative() {
    let mut app = App { screen: Screen::Crate(CrateScreen::default()) };
    app.handle(Message::Crate(CrateMessage::Tab(Tab::Versions)));
    let krate = match &app.screen {
        Screen::Crate(krate) => krate,
        Screen::Home => panic!("the home screen is shown"),
    };
    let pane = view_content(krate);
    assert_eq!(pane.index(), 2);
    assert!(matches!(pane, OneOf4::B(_)));
    assert!(!matches!(pane, OneOf4::A(_) | OneOf4::C(_) | OneOf4::D(_)));
}

#[test]
fn crate_page_of_the_initial_screen() {
    let page = view_crate(&CrateScreen::default());
    assert_eq!(
        page,
        Ok(expected_crate_page(
            "viewbuilder",
            "v0.9.0",
            "v0.10.0",
            "MIT or Apache-2.0",
            Tab::Readme,
            vec![leaf("Readme")],
        ))
    );
}

#[test]
fn crate_page_shows_the_selected_version_and_the_versions_tab() {
    let mut krate = CrateScreen::default();
    krate.version_idx = 1;
    krate.tab = Tab::Versions;
    assert_eq!(
        view_crate(&krate),
        Ok(expected_crate_page(
            "viewbuilder",
            "v0.9.0",
            "v0.9.0",
            "MIT or Apache-2.0",
            Tab::Versions,
            vec![el("ul", vec![], vec![version_entry(0, "v0.10.0"), version_entry(1, "v0.9.0")])],
        ))
    );
}

#[test]
fn crate_page_install_line_names_the_selected_version() {
    let krate = CrateScreen {
        tab: Tab::Dependents,
        name: String::from("demo"),
        versions: vec![
            Version { name: String::from("v3") },
            Version { name: String::from("v2") },
            Version { name: String::from("v1") },
        ],
        version_idx: 1,
        license: String::from("MIT"),
        repository: String::from("https://example.org/demo"),
    };
    assert_eq!(
        view_crate(&krate),
        Ok(expected_crate_page(
            "demo",
            "v1",
            "v2",
            "MIT",
            Tab::Dependents,
            vec![leaf("Dependents")],
        ))
    );
}

fn texts(node: &Node<Message>, out: &mut Vec<String>) {
    match node {
        Node::Text(text) => out.push(text.clone()),
        Node::Element { children, .. } => {
            for child in children {
                texts(child, out);
            }
        }
        Node::Keyed { node, .. } => texts(node, out),
    }
}

#[test]
fn crate_page_texts_in_mounted_order() {
    let mut krate = CrateScreen::default();
    krate.version_idx = 1;
    let mut found = Vec::new();
    texts(&view_crate(&krate).unwrap(), &mut found);
    assert_eq!(
        found,
        vec![
            "viewbuilder",
            "v0.9.0",
            "Readme",
            "Versions",
            "Dependencies",
            "Dependents",
            "Readme",
            "Documentation",
            "url",
            "Repository",
            "url",
            "Homepage",
            "url",
            "Install",
            "viewbuilder = v0.9.0",
            "cargo install viewbuilder",
            "Version",
            "v0.9.0",
            "License",
            "MIT or Apache-2.0",
            "Last update",
            "20 hours ago",
        ]
    );
}

#[test]
fn crate_page_faults_when_the_selected_version_does_not_exist() {
    let mut krate = CrateScreen::default();
    krate.version_idx = 2;
    assert_eq!(view_crate(&krate), Err(Fault::IndexOutOfRange { index: 2, len: 2 }));
    krate.version_idx = usize::MAX;
    assert_eq!(view_crate(&krate), Err(Fault::IndexOutOfRange { index: usize::MAX, len: 2 }));
}

#[test]
fn crate_page_faults_when_there_is_no_version() {
    let mut krate = CrateScreen::default();
    krate.versions = Vec::new();
    assert_eq!(view_crate(&krate), Err(Fault::IndexOutOfRange { index: 0, len: 0 }));
}

#[test]
fn home_page_links_to_the_initial_crate_screen() {
    let (home, screen) = view(&App::default()).unwrap();
    assert_eq!(home, home_link());
    assert_eq!(screen.index(), 1);
    assert_eq!(
        screen,
        OneOf2::A(el(
            "a",
            vec![Attr::OnClick(Message::Screen(Screen::Crate(CrateScreen::default())))],
            vec![leaf("Go to crate")],
        ))
    );
}

#[test]
fn crate_page_is_the_second_alternative_of_the_page() {
    let app = App { screen: Screen::Crate(CrateScreen::default()) };
    let (home, screen) = view(&app).unwrap();
    assert_eq!(home, home_link());
    assert_eq!(screen.index(), 2);
    assert_eq!(screen, OneOf2::B(view_crate(&CrateScreen::default()).unwrap()));
}

#[test]
fn page_renders_the_home_link_before_the_screen() {
    let app = App { screen: Screen::Crate(CrateScreen::default()) };
    let nodes = view(&app).unwrap().render();
    assert_eq!(nodes, vec![home_link(), view_crate(&CrateScreen::default()).unwrap()]);
}

#[test]
fn selecting_a_version_past_the_end_is_a_fault_of_the_page() {
    let mut app = App { screen: Screen::Crate(CrateScreen::default()) };
    app.handle(Message::Crate(CrateMessage::SelectVersion { idx: 2 }));
    assert_eq!(view(&app), Err(Fault::IndexOutOfRange { index: 2, len: 2 }));
    app.handle(Message::Crate(CrateMessage::SelectVersion { idx: 1 }));
    assert!(view(&app).is_ok());
}

#[test]
fn equal_states_give_equal_pages() {
    let one = App { screen: Screen::Crate(CrateScreen::default()) };
    let mut other = App::default();
    other.handle(Message::Screen(Screen::Crate(CrateScreen::default())));
    assert_eq!(one, other);
    assert_eq!(view(&one), view(&other));
    assert_eq!(view(&one), view(&one));
    assert_eq!(view(&App::default()), view(&App::default()));
}

#[test]
fn firing_the_binding_of_a_version_selects_it() {
    let mut app = App { screen: Screen::Crate(CrateScreen::default()) };
    app.handle(Message::Crate(CrateMessage::Tab(Tab::Versions)));
    let list = match &app.screen {
        Screen::Crate(krate) => view_versions(&krate.versions),
        Screen::Home => panic!("the home screen is shown"),
    };
    let second = match list {
        Node::Element { mut children, .. } => children.remove(1),
        _ => panic!("the version list is an element"),
    };
    let entry = match second {
        Node::Keyed { key: 1, node } => *node,
        _ => panic!("the second entry has key 1"),
    };
    let link = match entry {
        Node::Element { mut children, .. } => children.remove(0),
        _ => panic!("an entry is an element"),
    };
    let msg = match link {
        Node::Element { mut attrs, .. } => match attrs.remove(1) {
            Attr::OnClick(msg) => msg,
            Attr::Class(_) => panic!("the second attribute is the binding"),
        },
        _ => panic!("the name is an element"),
    };
    app.handle(msg);
    match &app.screen {
        Screen::Crate(krate) => {
            assert_eq!(krate.version_idx, 1);
            assert_eq!(krate.tab, Tab::Readme);
        }
        Screen::Home => panic!("the home screen is shown"),
    }
}
