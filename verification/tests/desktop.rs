use app_core::desktop_assets::app_desktop_file;
use app_core::presentation::desktop_file_name;

#[test]
fn desktop_file_takes_the_template_and_sets_the_app_fields() {
    let save_path = format!("/tmp/desktop/{}", desktop_file_name("org.example.Tool"));
    let template = "[Desktop Entry]\nType=Application\nName=Placeholder\nName[de]=Platzhalter\nTerminal=false\n";
    let text = app_desktop_file(
        &save_path,
        template,
        "org.example.Tool",
        "Tool",
        "Configure the system",
        "tool",
    )
    .unwrap();
    assert_eq!(
        text,
        "[Desktop Entry]\nComment=Configure the system\nExec=tool\nIcon=org.example.Tool\n\
         Name=Tool\nStartupWMClass=org.example.Tool\nTerminal=false\nType=Application\n\n"
    );
}

#[test]
fn desktop_file_creates_the_entry_group_when_missing() {
    let text = app_desktop_file("/tmp/a.desktop", "", "a", "A", "s", "b").unwrap();
    assert_eq!(
        text,
        "[Desktop Entry]\nComment=s\nExec=b\nIcon=a\nName=A\nStartupWMClass=a\n\n"
    );
}

#[test]
fn desktop_file_refuses_a_path_without_the_desktop_extension() {
    assert!(app_desktop_file("/tmp/a.txt", "[Desktop Entry]\n", "a", "A", "s", "b").is_err());
}

#[test]
fn desktop_file_refuses_a_key_outside_any_group() {
    assert!(app_desktop_file("/tmp/a.desktop", "Name=x\n", "a", "A", "s", "b").is_err());
}
