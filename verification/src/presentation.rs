//! The decisions behind what the window shows: its size, progress texts,
//! task lookup, the language to use and the names of desktop files.
use crate::text::{
    chars_equal, chars_of, owned, push_signed_decimal, push_str, push_decimal, signed_decimal,
    decimal, split_fields, split_on, string_of, views, same_text,
};
use crate::action_runner::ActionResult;
use vstd::prelude::*;

verus! {

/// The window's width when none was saved.
pub const DEFAULT_WIDTH: i32 = 950;

/// The window's height when none was saved.
pub const DEFAULT_HEIGHT: i32 = 850;

/// The narrowest the window opens.
pub const MIN_WIDTH: i32 = 600;

/// The lowest the window opens.
pub const MIN_HEIGHT: i32 = 500;

/// The size to open with, from the saved size: the default when nothing was
/// saved (zero), at least the minimum otherwise.
pub open spec fn spec_window_dimension(saved: i32, default: i32, min: i32) -> i32 {
    if saved == 0 {
        default
    } else if saved < min {
        min
    } else {
        saved
    }
}

/// The size to open with in one dimension (see `spec_window_dimension`).
pub fn window_dimension(saved: i32, default: i32, min: i32) -> (r: i32)
    ensures
        r == spec_window_dimension(saved, default, min),
{
    if saved == 0 {
        default
    } else if saved < min {
        min
    } else {
        saved
    }
}

/// The width and height to open the window with, from the saved ones.
pub fn window_size(saved_width: i32, saved_height: i32) -> (r: (i32, i32))
    ensures
        r == (
            spec_window_dimension(saved_width, DEFAULT_WIDTH, MIN_WIDTH),
            spec_window_dimension(saved_height, DEFAULT_HEIGHT, MIN_HEIGHT),
        ),
{
    (
        window_dimension(saved_width, DEFAULT_WIDTH, MIN_WIDTH),
        window_dimension(saved_height, DEFAULT_HEIGHT, MIN_HEIGHT),
    )
}

/// The subtitle of a task row during progress: `<nr> / <total> : <action>`,
/// or empty when no action or no number is given.
pub open spec fn spec_progress_subtitle(
    action: Option<Seq<char>>,
    action_nr: Option<i32>,
    total_actions: i32,
) -> Seq<char> {
    match (action, action_nr) {
        (Some(a), Some(nr)) => signed_decimal(nr as int) + " / "@ + signed_decimal(
            total_actions as int,
        ) + " : "@ + a,
        _ => Seq::empty(),
    }
}

/// The subtitle of a task row during progress.
pub fn progress_subtitle(action: Option<&str>, action_nr: Option<i32>, total_actions: i32) -> (r:
    String)
    ensures
        r@ == spec_progress_subtitle(
            match action {
                Some(a) => Some(a@),
                None => None,
            },
            action_nr,
            total_actions,
        ),
{
    match (action, action_nr) {
        (Some(a), Some(nr)) => {
            let mut r = String::new();
            push_signed_decimal(&mut r, nr as i64);
            push_str(&mut r, " / ");
            push_signed_decimal(&mut r, total_actions as i64);
            push_str(&mut r, " : ");
            push_str(&mut r, a);
            r
        },
        _ => String::new(),
    }
}

/// The text of the progress bar: `<label> (<n>)`, where `n` counts the task
/// that runs and the ones waiting, or is 0 once the task ended.
pub open spec fn spec_queue_label(label: Seq<char>, tasks_in_queue: u32, ended: bool) -> Seq<
    char,
> {
    label + " ("@ + decimal(
        if ended {
            0
        } else {
            (tasks_in_queue + 1) as nat
        },
    ) + ")"@
}

/// The text of the progress bar.
pub fn queue_label(label: &str, tasks_in_queue: u32, ended: bool) -> (r: String)
    ensures
        r@ == spec_queue_label(label@, tasks_in_queue, ended),
{
    let mut r = owned(label);
    push_str(&mut r, " (");
    let n: u64 = if ended {
        0
    } else {
        tasks_in_queue as u64 + 1
    };
    push_decimal(&mut r, n);
    push_str(&mut r, ")");
    r
}

/// The index of the task with run identity `id` among `run_ids`: the last
/// one when it matches (events mostly concern the newest task), otherwise
/// the first that matches.
pub fn find_task(run_ids: &Vec<String>, id: &str) -> (r: Option<usize>)
    ensures
        match r {
            Some(k) => k < run_ids@.len() && run_ids@[k as int]@ == id@ && (k + 1
                == run_ids@.len() || (forall|j: int| 0 <= j < k ==> run_ids@[j]@ != id@)),
            None => forall|j: int| 0 <= j < run_ids@.len() ==> run_ids@[j]@ != id@,
        },
        r is Some && run_ids@.len() > 0 && run_ids@.last()@ == id@ ==> r == Some((run_ids@.len() - 1) as usize),
{
    let n = run_ids.len();
    if n > 0 && same_text(run_ids[n - 1].as_str(), id) {
        return Some(n - 1);
    }
    let mut i: usize = 0;
    while i < n
        invariant
            n == run_ids@.len(),
            i <= n,
            forall|j: int| 0 <= j < i ==> run_ids@[j]@ != id@,
            n > 0 ==> run_ids@[n - 1]@ != id@,
        decreases n - i,
    {
        if same_text(run_ids[i].as_str(), id) {
            return Some(i);
        }
        i = i + 1;
    }
    None
}

/// The part of a locale name before the first underscore (`en` for `en_GB`).
pub open spec fn locale_stem(name: Seq<char>) -> Seq<char> {
    split_fields(name, '_')[0]
}

/// The locale chosen from `supported[i..]` for `language`, having chosen
/// `acc` so far: an exact match wins at once; otherwise the stem of each
/// supported locale whose stem is the language's stem replaces the choice.
pub open spec fn locale_scan(
    language: Seq<char>,
    supported: Seq<Seq<char>>,
    i: int,
    acc: Seq<char>,
) -> Seq<char>
    decreases supported.len() - i,
{
    if i < 0 || i >= supported.len() {
        acc
    } else if supported[i] == language {
        supported[i]
    } else {
        locale_scan(
            language,
            supported,
            i + 1,
            if locale_stem(supported[i]) == locale_stem(language) {
                locale_stem(supported[i])
            } else {
                acc
            },
        )
    }
}

/// The locale to use for the user's `language`, among the `supported`
/// ones, or `None` to keep the default.
pub open spec fn spec_select_locale(language: Seq<char>, supported: Seq<Seq<char>>) -> Option<
    Seq<char>,
> {
    let chosen = locale_scan(language, supported, 0, Seq::empty());
    if chosen.len() > 0 {
        Some(chosen)
    } else {
        None
    }
}

fn stem_of(cs: &Vec<char>) -> (r: Vec<char>)
    ensures
        r@ == locale_stem(cs@),
{
    let fields = split_on(cs, '_');
    proof {
        crate::text::lemma_split_fields_nonempty(cs@, '_');
        assert(views(fields@)[0] == fields@[0]@);
    }
    let mut r: Vec<char> = Vec::new();
    let mut i: usize = 0;
    while i < fields[0].len()
        invariant
            fields@.len() >= 1,
            i <= fields@[0]@.len(),
            r@ == fields@[0]@.take(i as int),
        decreases fields@[0]@.len() - i,
    {
        r.push(fields[0][i]);
        assert(r@ =~= fields@[0]@.take(i + 1));
        i = i + 1;
    }
    assert(r@ =~= fields@[0]@);
    r
}

/// The locale to use for the user's `language` (see `spec_select_locale`):
/// `en_GB` is used when supported, else `en` when some `en_*` or `en` is.
pub fn select_locale(language: &str, supported: &Vec<String>) -> (r: Option<String>)
    ensures
        match r {
            Some(s) => spec_select_locale(language@, crate::text::string_views(supported@))
                == Some(s@),
            None => spec_select_locale(language@, crate::text::string_views(supported@)) is None,
        },
{
    let ghost sup = crate::text::string_views(supported@);
    let lang = chars_of(language);
    let lang_stem = stem_of(&lang);
    let mut acc: Vec<char> = Vec::new();
    let mut i: usize = 0;
    while i < supported.len()
        invariant
            sup == crate::text::string_views(supported@),
            lang@ == language@,
            lang_stem@ == locale_stem(language@),
            i <= supported@.len(),
            locale_scan(language@, sup, i as int, acc@) == locale_scan(
                language@,
                sup,
                0,
                Seq::empty(),
            ),
        decreases supported@.len() - i,
    {
        let cand = chars_of(supported[i].as_str());
        assert(sup[i as int] == cand@);
        if chars_equal(&cand, &lang) {
            let r = string_of(&cand);
            if cand.len() > 0 {
                return Some(r);
            } else {
                return None;
            }
        }
        let cand_stem = stem_of(&cand);
        if chars_equal(&cand_stem, &lang_stem) {
            acc = cand_stem;
        }
        i = i + 1;
    }
    if acc.len() > 0 {
        Some(string_of(&acc))
    } else {
        None
    }
}

/// The file name of the application's desktop entry: `<app id>.desktop`.
pub fn desktop_file_name(app_id: &str) -> (r: String)
    ensures
        r@ == app_id@ + ".desktop"@,
{
    let mut r = owned(app_id);
    push_str(&mut r, ".desktop");
    r
}

/// The file name of the application's icon: `<app id>.png`.
pub fn icon_file_name(app_id: &str) -> (r: String)
    ensures
        r@ == app_id@ + ".png"@,
{
    let mut r = owned(app_id);
    push_str(&mut r, ".png");
    r
}

/// The text tags of the task output view.
#[derive(PartialEq, Eq, Structural, Clone, Copy, Debug)]
pub enum TextBufferTag {
    Error,
    Success,
}

impl TextBufferTag {
    /// The tag's name in the text buffer.
    pub fn to_display_string(&self) -> (r: String)
        ensures
            r@ == match self {
                TextBufferTag::Error => "error"@,
                TextBufferTag::Success => "succes"@,
            },
    {
        match self {
            TextBufferTag::Error => owned("error"),
            TextBufferTag::Success => owned("succes"),
        }
    }
}

/// A line of the task output that reports an error: `✗ <line>`.
pub fn error_line(line: &str) -> (r: String)
    ensures
        r@ == "\u{2717} "@ + line@,
{
    let mut r = owned("\u{2717} ");
    push_str(&mut r, line);
    r
}

/// A line of the task output that reports success: `✓ <line>`.
pub fn success_line(line: &str) -> (r: String)
    ensures
        r@ == "\u{2713} "@ + line@,
{
    let mut r = owned("\u{2713} ");
    push_str(&mut r, line);
    r
}

/// The outputs of the results that printed something, in order: what the
/// task view lists after a success.
pub open spec fn printed_outputs(results: Seq<ActionResult>) -> Seq<Seq<char>>
    decreases results.len(),
{
    if results.len() == 0 {
        Seq::empty()
    } else {
        printed_outputs(results.drop_last()) + if results.last().stdout@.len() == 0 {
            Seq::empty()
        } else {
            seq![results.last().stdout@]
        }
    }
}

/// The outputs of the results that printed something, in order.
pub fn result_output_lines(results: &Vec<ActionResult>) -> (r: Vec<String>)
    ensures
        crate::text::string_views(r@) == printed_outputs(results@),
{
    let mut r: Vec<String> = Vec::new();
    let mut i: usize = 0;
    while i < results.len()
        invariant
            i <= results@.len(),
            crate::text::string_views(r@) == printed_outputs(results@.take(i as int)),
        decreases results@.len() - i,
    {
        assert(results@.take(i + 1).drop_last() =~= results@.take(i as int));
        assert(results@.take(i + 1).last() == results@[i as int]);
        let ghost before = r@;
        if !results[i].stdout.as_str().is_empty() {
            r.push(results[i].stdout.clone());
            assert(crate::text::string_views(r@) =~= crate::text::string_views(before).push(
                results@[i as int].stdout@,
            ));
        } else {
            assert(results@[i as int].stdout@.len() == 0);
        }
        assert(crate::text::string_views(r@) =~= printed_outputs(results@.take(i + 1)));
        i = i + 1;
    }
    assert(results@.take(results@.len() as int) =~= results@);
    r
}

/// Whether a file with this extension is a page file: `yml` or `yaml`.
pub fn is_page_file_extension(extension: Option<&str>) -> (r: bool)
    ensures
        r == match extension {
            Some(e) => e@ == "yml"@ || e@ == "yaml"@,
            None => false,
        },
{
    match extension {
        Some(e) => same_text(e, "yml") || same_text(e, "yaml"),
        None => false,
    }
}

} // verus!
