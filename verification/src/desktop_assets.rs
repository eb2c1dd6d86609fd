//! The application's desktop file: a template desktop entry filled in with
//! the application's name, icon, window class, command and summary.
use crate::text::owned;
use freedesktop_desktop_entry::{DecodeError, DesktopEntry};
use vstd::prelude::*;

verus! {

#[verifier::external_type_specification]
#[verifier::external_body]
pub struct ExDesktopEntry(DesktopEntry);

#[verifier::external_type_specification]
#[verifier::external_body]
pub struct ExDecodeError(DecodeError);

/// The groups a desktop entry holds: for each group name and each key of
/// the group, the key's default value and its localized values by locale.
pub uninterp spec fn desktop_entry_groups(e: DesktopEntry) -> Map<
    Seq<char>,
    Map<Seq<char>, (Seq<char>, Map<Seq<char>, Seq<char>>)>,
>;

/// The groups `DesktopEntry::from_str` reads from `template` when the entry
/// is saved at `path` and no locale is filtered out; `None` when it refuses
/// the text or the path.
pub uninterp spec fn parsed_desktop_groups(path: Seq<char>, template: Seq<char>) -> Option<
    Map<Seq<char>, Map<Seq<char>, (Seq<char>, Map<Seq<char>, Seq<char>>)>>,
>;

/// The text that `DesktopEntry`'s `Display` writes for an entry with these groups.
pub uninterp spec fn rendered_desktop_groups(
    groups: Map<Seq<char>, Map<Seq<char>, (Seq<char>, Map<Seq<char>, Seq<char>>)>>,
) -> Seq<char>;

/// The groups after setting `key` to `value` in the `[Desktop Entry]`
/// group (created if missing), dropping the key's earlier value and
/// localized values.
pub open spec fn with_desktop_field(
    groups: Map<Seq<char>, Map<Seq<char>, (Seq<char>, Map<Seq<char>, Seq<char>>)>>,
    key: Seq<char>,
    value: Seq<char>,
) -> Map<Seq<char>, Map<Seq<char>, (Seq<char>, Map<Seq<char>, Seq<char>>)>> {
    let group = if groups.contains_key("Desktop Entry"@) {
        groups["Desktop Entry"@]
    } else {
        Map::empty()
    };
    groups.insert("Desktop Entry"@, group.insert(key, (value, Map::empty())))
}

/// The groups with the application's fields set, in this order: `Name`,
/// `Icon`, `StartupWMClass`, `Exec`, `Comment`.
pub open spec fn app_groups(
    groups: Map<Seq<char>, Map<Seq<char>, (Seq<char>, Map<Seq<char>, Seq<char>>)>>,
    app_id: Seq<char>,
    app_name: Seq<char>,
    summary: Seq<char>,
    bin_name: Seq<char>,
) -> Map<Seq<char>, Map<Seq<char>, (Seq<char>, Map<Seq<char>, Seq<char>>)>> {
    with_desktop_field(
        with_desktop_field(
            with_desktop_field(
                with_desktop_field(with_desktop_field(groups, "Name"@, app_name), "Icon"@, app_id),
                "StartupWMClass"@,
                app_id,
            ),
            "Exec"@,
            bin_name,
        ),
        "Comment"@,
        summary,
    )
}

/// `DesktopEntry::from_str(path, template, None)`: reads a desktop entry
/// from its text. The contract claims that the result depends on the two
/// strings alone and holds the groups `parsed_desktop_groups` names, or
/// fails exactly when that name is `None`.
#[verifier::external_body]
fn parse_desktop_entry(path: &str, template: &str) -> (r: Result<DesktopEntry, DecodeError>)
    ensures
        match parsed_desktop_groups(path@, template@) {
            Some(g) => r matches Ok(e) && desktop_entry_groups(e) == g,
            None => r is Err,
        },
{
    DesktopEntry::from_str(path, template, None::<&[String]>)
}

/// `DesktopEntry::add_desktop_entry`: sets a key of the `[Desktop Entry]`
/// group, creating the group if missing; the key's earlier value and
/// localized values go, and nothing else changes.
#[verifier::external_body]
fn add_desktop_field(e: &mut DesktopEntry, key: String, value: String)
    ensures
        desktop_entry_groups(*final(e)) == with_desktop_field(
            desktop_entry_groups(*old(e)),
            key@,
            value@,
        ),
{
    e.add_desktop_entry(key, value)
}

/// `DesktopEntry`'s `Display` (through `to_string`): the text of the entry,
/// which the contract claims depends on its groups alone.
#[verifier::external_body]
fn render_desktop_entry(e: &DesktopEntry) -> (r: String)
    ensures
        r@ == rendered_desktop_groups(desktop_entry_groups(*e)),
{
    e.to_string()
}

/// Sets the application's fields in the `[Desktop Entry]` group:
/// `Name`, `Icon`, `StartupWMClass`, `Exec` and `Comment`.
pub fn fill_app_entry(
    e: &mut DesktopEntry,
    app_id: &str,
    app_name: &str,
    summary: &str,
    bin_name: &str,
)
    ensures
        desktop_entry_groups(*final(e)) == app_groups(
            desktop_entry_groups(*old(e)),
            app_id@,
            app_name@,
            summary@,
            bin_name@,
        ),
{
    add_desktop_field(e, owned("Name"), owned(app_name));
    add_desktop_field(e, owned("Icon"), owned(app_id));
    add_desktop_field(e, owned("StartupWMClass"), owned(app_id));
    add_desktop_field(e, owned("Exec"), owned(bin_name));
    add_desktop_field(e, owned("Comment"), owned(summary));
}

/// The desktop-file template could not be read as a desktop entry saved at
/// the given path.
#[derive(Debug)]
pub struct InvalidDesktopTemplate {
    pub reason: DecodeError,
}

/// The text of the application's desktop file, to be saved at `save_path`:
/// the template with the application's fields set (see `fill_app_entry`).
pub fn app_desktop_file(
    save_path: &str,
    template: &str,
    app_id: &str,
    app_name: &str,
    summary: &str,
    bin_name: &str,
) -> (r: Result<String, InvalidDesktopTemplate>)
    ensures
        match parsed_desktop_groups(save_path@, template@) {
            Some(g) => r matches Ok(text) && text@ == rendered_desktop_groups(
                app_groups(g, app_id@, app_name@, summary@, bin_name@),
            ),
            None => r is Err,
        },
{
    match parse_desktop_entry(save_path, template) {
        Ok(mut entry) => {
            fill_app_entry(&mut entry, app_id, app_name, summary, bin_name);
            Ok(render_desktop_entry(&entry))
        },
        Err(reason) => Err(InvalidDesktopTemplate { reason }),
    }
}

} // verus!
