//! The interactive menu as a state machine: from the state it waits in, the
//! settings and the line the user typed, to the next state, the new settings
//! and what is to be shown or done.
use vstd::prelude::*;

use crate::config::{
    add_exclude_path, add_extension, add_include_dir, config_lang, current_lang, default_view,
    dotted, language_choice, remove_exclude_path, remove_extension, remove_include_dir,
    separator_choice, set_language, set_separator, without, Config, ConfigView,
};
use crate::i18n::{tr, tr_text, Lang, Msg};
use crate::text::{decimal, push_decimal, str_eq, trim, trimmed};

verus! {

/// What the list of enabled extensions looks like when debug-formatted
/// (`{:?}` of a `Vec<String>`).
pub uninterp spec fn debug_text(v: Seq<Seq<char>>) -> Seq<char>;

/// Formats a list of strings with `{:?}`; the result is named `debug_text`.
#[verifier::external_body]
fn debug_list(v: &Vec<String>) -> (s: String)
    ensures
        s@ == debug_text(v.deep_view()),
{
    format!("{:?}", v)
}

/// Where the menu waits for the next line.
#[derive(Debug, Clone, Copy, PartialEq, Eq, Structural)]
pub enum MenuState {
    Main,
    Source,
    IncludeMenu,
    IncludeAdd,
    IncludeRemove,
    ExtMenu,
    ExtAdd,
    ExtRemove,
    Separator,
    ExcludeMenu,
    ExcludeAdd,
    ExcludeRemove,
    Output,
    Language,
}

/// Something to show or to do, in order, before the next line is read.
pub enum Effect {
    /// Print a line.
    Say(String),
    /// Print a prompt, without a line end.
    Ask(String),
    /// Collect the files and copy them.
    Copy(Lang),
    /// Collect the files, page through them and copy them if confirmed.
    Preview(Lang),
    /// Save the settings.
    Save,
    /// Leave the menu.
    Quit,
}

/// An effect as a value.
pub enum EffectView {
    Say(Seq<char>),
    Ask(Seq<char>),
    Copy(Lang),
    Preview(Lang),
    Save,
    Quit,
}

impl View for Effect {
    type V = EffectView;

    open spec fn view(&self) -> EffectView {
        match self {
            Effect::Say(s) => EffectView::Say(s@),
            Effect::Ask(s) => EffectView::Ask(s@),
            Effect::Copy(l) => EffectView::Copy(*l),
            Effect::Preview(l) => EffectView::Preview(*l),
            Effect::Save => EffectView::Save,
            Effect::Quit => EffectView::Quit,
        }
    }
}

/// The values of a list of effects.
pub open spec fn effects_view(v: Seq<Effect>) -> Seq<EffectView> {
    Seq::new(v.len(), |i: int| v[i]@)
}

/// The text of a truth value.
pub open spec fn bool_text(b: bool) -> Seq<char> {
    if b {
        "true"@
    } else {
        "false"@
    }
}

/// How the included directories are summed up in the menu.
pub open spec fn include_label(n: nat, lang: Lang) -> Seq<char> {
    if n == 0 {
        match lang {
            Lang::RU => "Все папки"@,
            Lang::EN => "All folders"@,
            Lang::ZH => "所有文件夹"@,
        }
    } else {
        decimal(n) + match lang {
            Lang::RU => " папок"@,
            Lang::EN => " folders"@,
            Lang::ZH => " 个文件夹"@,
        }
    }
}

/// How the excluded paths are summed up in the menu.
pub open spec fn exclude_label(n: nat, lang: Lang) -> Seq<char> {
    if n == 0 {
        match lang {
            Lang::RU => "Нет"@,
            Lang::EN => "None"@,
            Lang::ZH => "无"@,
        }
    } else {
        decimal(n) + match lang {
            Lang::RU => " путей"@,
            Lang::EN => " paths"@,
            Lang::ZH => " 个路径"@,
        }
    }
}

/// A menu item with the current value in brackets.
pub open spec fn item_with(num: Seq<char>, msg: Msg, lang: Lang, detail: Seq<char>) -> Seq<char> {
    num + tr_text(msg, lang) + " ("@ + detail + ")"@
}

/// A menu item.
pub open spec fn item(num: Seq<char>, msg: Msg, lang: Lang) -> Seq<char> {
    num + tr_text(msg, lang)
}

/// The main menu for the given settings, ending with the prompt for a choice.
#[verifier::opaque]
pub open spec fn menu_view(c: ConfigView) -> Seq<EffectView> {
    let l = config_lang(c);
    seq![
        EffectView::Say("\n========================================"@),
        EffectView::Say(tr_text(Msg::MenuTitle, l)),
        EffectView::Say(item_with("1. "@, Msg::M1, l, c.last_source)),
        EffectView::Say(item_with("2. "@, Msg::M2, l, include_label(c.include_dirs.len(), l))),
        EffectView::Say(item_with("3. "@, Msg::M3, l, debug_text(c.enabled_extensions))),
        EffectView::Say(item_with("4. "@, Msg::M4, l, decimal(c.separator_lines as nat))),
        EffectView::Say(item_with("5. "@, Msg::M5, l, bool_text(c.ignore_system_dirs))),
        EffectView::Say(item_with("6. "@, Msg::M6, l, exclude_label(c.exclude_paths.len(), l))),
        EffectView::Say(item_with("7. "@, Msg::M7, l, c.last_output)),
        EffectView::Say(item("8. "@, Msg::M8, l)),
        EffectView::Say(item("9. "@, Msg::M9, l)),
        EffectView::Say(item("10. "@, Msg::M10, l)),
        EffectView::Say(item("11. "@, Msg::M11, l)),
        EffectView::Say(item("12. "@, Msg::M12, l)),
        EffectView::Say(item("13. "@, Msg::M13, l)),
        EffectView::Say(item("14. "@, Msg::M14, l)),
        EffectView::Say("========================================"@),
        EffectView::Say(tr_text(Msg::Footer, l)),
        EffectView::Ask(tr_text(Msg::PromptChoice, l)),
    ]
}

/// The lines that list the entries of a list.
pub open spec fn listed(s: Seq<Seq<char>>) -> Seq<EffectView> {
    Seq::new(s.len(), |i: int| EffectView::Say("  - "@ + s[i]))
}

/// What the main menu does with a choice other than 1 to 7.
pub open spec fn main_rest_spec(c: ConfigView, t: Seq<char>, l: Lang) -> (
    MenuState,
    ConfigView,
    Seq<EffectView>,
) {
    if t == "8"@ {
        (MenuState::Main, c, seq![EffectView::Copy(l)] + menu_view(c))
    } else if t == "9"@ {
        (MenuState::Main, c, seq![EffectView::Preview(l)] + menu_view(c))
    } else if t == "10"@ {
        (
            MenuState::Main,
            default_view(),
            seq![EffectView::Say(tr_text(Msg::ResetSuccess, l))] + menu_view(default_view()),
        )
    } else if t == "11"@ {
        (
            MenuState::Main,
            c,
            seq![EffectView::Save, EffectView::Say(tr_text(Msg::SaveSuccess, l))]
                + menu_view(c),
        )
    } else if t == "12"@ {
        (
            MenuState::Main,
            c,
            seq![EffectView::Say(tr_text(Msg::UsageDetails, l))] + menu_view(c),
        )
    } else if t == "13"@ {
        (MenuState::Language, c, seq![EffectView::Say("1. RU\n2. EN\n3. ZH"@)])
    } else if t == "14"@ {
        (MenuState::Main, c, seq![EffectView::Say(tr_text(Msg::ExitMsg, l)), EffectView::Quit])
    } else {
        (
            MenuState::Main,
            c,
            seq![EffectView::Say(tr_text(Msg::InvalidChoice, l))] + menu_view(c),
        )
    }
}

/// What the menu does with a line typed while it waits in `state`: the next
/// state, the new settings and the effects, in order.
pub open spec fn step_spec(state: MenuState, c: ConfigView, line: Seq<char>) -> (
    MenuState,
    ConfigView,
    Seq<EffectView>,
) {
    let l = config_lang(c);
    let t = trimmed(line);
    match state {
        MenuState::Main => {
            if t == "1"@ {
                (MenuState::Source, c, seq![EffectView::Ask(tr_text(Msg::PromptSource, l))])
            } else if t == "2"@ {
                (
                    MenuState::IncludeMenu,
                    c,
                    seq![EffectView::Say(tr_text(Msg::CurrentIncl, l))] + listed(c.include_dirs),
                )
            } else if t == "3"@ {
                (MenuState::ExtMenu, c, seq![EffectView::Say(tr_text(Msg::CurrentExts, l))])
            } else if t == "4"@ {
                (MenuState::Separator, c, seq![EffectView::Ask(tr_text(Msg::PromptSep, l))])
            } else if t == "5"@ {
                let c2 = ConfigView { ignore_system_dirs: !c.ignore_system_dirs, ..c };
                (MenuState::Main, c2, menu_view(c2))
            } else if t == "6"@ {
                (
                    MenuState::ExcludeMenu,
                    c,
                    seq![EffectView::Say(tr_text(Msg::CurrentExcl, l))] + listed(c.exclude_paths),
                )
            } else if t == "7"@ {
                (MenuState::Output, c, seq![EffectView::Ask(tr_text(Msg::PromptOutput, l))])
            } else {
                main_rest_spec(c, t, l)
            }
        },
        MenuState::Source => {
            let c2 = ConfigView { last_source: t, ..c };
            (MenuState::Main, c2, menu_view(c2))
        },
        MenuState::IncludeMenu => {
            if t == "1"@ {
                (MenuState::IncludeAdd, c, seq![EffectView::Ask(tr_text(Msg::PromptAddIncl, l))])
            } else if t == "2"@ {
                (MenuState::IncludeRemove, c, seq![EffectView::Ask(tr_text(Msg::PromptRemIncl, l))])
            } else if t == "3"@ {
                let c2 = ConfigView { include_dirs: Seq::empty(), ..c };
                (
                    MenuState::Main,
                    c2,
                    seq![EffectView::Say(tr_text(Msg::PromptClearIncl, l))] + menu_view(c2),
                )
            } else {
                (MenuState::Main, c, menu_view(c))
            }
        },
        MenuState::IncludeAdd => {
            let c2 = if t.len() == 0 {
                c
            } else {
                ConfigView { include_dirs: c.include_dirs.push(t), ..c }
            };
            (MenuState::Main, c2, menu_view(c2))
        },
        MenuState::IncludeRemove => {
            let c2 = ConfigView { include_dirs: without(c.include_dirs, t), ..c };
            (MenuState::Main, c2, menu_view(c2))
        },
        MenuState::ExtMenu => {
            if t == "1"@ {
                (MenuState::ExtAdd, c, seq![EffectView::Ask(tr_text(Msg::PromptAddExt, l))])
            } else if t == "2"@ {
                (MenuState::ExtRemove, c, seq![EffectView::Ask(tr_text(Msg::PromptRemExt, l))])
            } else if t == "3"@ {
                let c2 = ConfigView { use_all_files: !c.use_all_files, ..c };
                (
                    MenuState::Main,
                    c2,
                    seq![EffectView::Say(tr_text(Msg::UseAllFiles, l))] + menu_view(c2),
                )
            } else {
                (MenuState::Main, c, menu_view(c))
            }
        },
        MenuState::ExtAdd => {
            let c2 = ConfigView { enabled_extensions: c.enabled_extensions.push(dotted(t)), ..c };
            (MenuState::Main, c2, menu_view(c2))
        },
        MenuState::ExtRemove => {
            let c2 = ConfigView {
                enabled_extensions: without(without(c.enabled_extensions, t), "."@ + t),
                ..c
            };
            (MenuState::Main, c2, menu_view(c2))
        },
        MenuState::Separator => {
            let c2 = match separator_choice(line) {
                Some(n) => ConfigView { separator_lines: n, ..c },
                None => c,
            };
            (MenuState::Main, c2, menu_view(c2))
        },
        MenuState::ExcludeMenu => {
            if t == "1"@ {
                (MenuState::ExcludeAdd, c, seq![EffectView::Ask(tr_text(Msg::PromptAddExcl, l))])
            } else if t == "2"@ {
                (MenuState::ExcludeRemove, c, seq![EffectView::Ask(tr_text(Msg::PromptRemExcl, l))])
            } else if t == "3"@ {
                let c2 = ConfigView { exclude_paths: Seq::empty(), ..c };
                (
                    MenuState::Main,
                    c2,
                    seq![EffectView::Say(tr_text(Msg::PromptClearExcl, l))] + menu_view(c2),
                )
            } else {
                (MenuState::Main, c, menu_view(c))
            }
        },
        MenuState::ExcludeAdd => {
            let c2 = ConfigView { exclude_paths: c.exclude_paths.push(t), ..c };
            (MenuState::Main, c2, menu_view(c2))
        },
        MenuState::ExcludeRemove => {
            let c2 = ConfigView { exclude_paths: without(c.exclude_paths, t), ..c };
            (MenuState::Main, c2, menu_view(c2))
        },
        MenuState::Output => {
            let c2 = ConfigView { last_output: t, ..c };
            (MenuState::Main, c2, menu_view(c2))
        },
        MenuState::Language => {
            let c2 = match language_choice(line) {
                Some(code) => ConfigView { language: code, ..c },
                None => c,
            };
            (MenuState::Main, c2, menu_view(c2))
        },
    }
}

// ---------------------------------------------------------------------------
// Building the effects
// ---------------------------------------------------------------------------

fn line_of(parts: &[&str]) -> (s: String)
    ensures
        s@ == joined_parts(parts@),
{
    let mut s = String::new();
    let mut i: usize = 0;
    while i < parts.len()
        invariant
            i <= parts@.len(),
            s@ == joined_parts(parts@.take(i as int)),
        decreases parts@.len() - i,
    {
        assert(parts@.take(i + 1).drop_last() == parts@.take(i as int));
        s.append(parts[i]);
        i += 1;
    }
    assert(parts@.take(parts@.len() as int) == parts@);
    s
}

/// The pieces written one after the other.
pub open spec fn joined_parts(parts: Seq<&str>) -> Seq<char>
    decreases parts.len(),
{
    if parts.len() == 0 {
        Seq::empty()
    } else {
        joined_parts(parts.drop_last()) + parts.last()@
    }
}

fn item_with_line(num: &str, msg: Msg, lang: Lang, detail: &str) -> (s: String)
    ensures
        s@ == item_with(num@, msg, lang, detail@),
{
    let t = tr(msg, lang);
    let s = line_of(&[num, t.as_str(), " (", detail, ")"]);
    proof {
        reveal_with_fuel(joined_parts, 6);
    }
    s
}

fn item_line(num: &str, msg: Msg, lang: Lang) -> (s: String)
    ensures
        s@ == item(num@, msg, lang),
{
    let t = tr(msg, lang);
    let s = line_of(&[num, t.as_str()]);
    proof {
        reveal_with_fuel(joined_parts, 3);
    }
    s
}

fn count_label(n: usize, zero_text: &str, unit: &str) -> (s: String)
    ensures
        s@ == (if n == 0 {
            zero_text@
        } else {
            decimal(n as nat) + unit@
        }),
{
    if n == 0 {
        String::from_str(zero_text)
    } else {
        let mut s = String::new();
        push_decimal(&mut s, n);
        s.append(unit);
        s
    }
}

fn include_text(n: usize, lang: Lang) -> (s: String)
    ensures
        s@ == include_label(n as nat, lang),
{
    match lang {
        Lang::RU => count_label(n, "Все папки", " папок"),
        Lang::EN => count_label(n, "All folders", " folders"),
        Lang::ZH => count_label(n, "所有文件夹", " 个文件夹"),
    }
}

fn exclude_text(n: usize, lang: Lang) -> (s: String)
    ensures
        s@ == exclude_label(n as nat, lang),
{
    match lang {
        Lang::RU => count_label(n, "Нет", " путей"),
        Lang::EN => count_label(n, "None", " paths"),
        Lang::ZH => count_label(n, "无", " 个路径"),
    }
}

/// The main menu for the given settings, ending with the prompt for a choice.
pub fn menu_effects(cfg: &Config) -> (v: Vec<Effect>)
    ensures
        effects_view(v@) == menu_view(cfg@),
{
    let l = current_lang(cfg);
    let incl = include_text(cfg.include_dirs.len(), l);
    let exts = debug_list(&cfg.enabled_extensions);
    let mut sep = String::new();
    push_decimal(&mut sep, cfg.separator_lines as usize);
    let sys = String::from_str(if cfg.ignore_system_dirs { "true" } else { "false" });
    let excl = exclude_text(cfg.exclude_paths.len(), l);
    let mut v: Vec<Effect> = Vec::new();
    v.push(Effect::Say(String::from_str("\n========================================")));
    v.push(Effect::Say(tr(Msg::MenuTitle, l)));
    v.push(Effect::Say(item_with_line("1. ", Msg::M1, l, cfg.last_source.as_str())));
    v.push(Effect::Say(item_with_line("2. ", Msg::M2, l, incl.as_str())));
    v.push(Effect::Say(item_with_line("3. ", Msg::M3, l, exts.as_str())));
    v.push(Effect::Say(item_with_line("4. ", Msg::M4, l, sep.as_str())));
    v.push(Effect::Say(item_with_line("5. ", Msg::M5, l, sys.as_str())));
    v.push(Effect::Say(item_with_line("6. ", Msg::M6, l, excl.as_str())));
    v.push(Effect::Say(item_with_line("7. ", Msg::M7, l, cfg.last_output.as_str())));
    v.push(Effect::Say(item_line("8. ", Msg::M8, l)));
    v.push(Effect::Say(item_line("9. ", Msg::M9, l)));
    v.push(Effect::Say(item_line("10. ", Msg::M10, l)));
    v.push(Effect::Say(item_line("11. ", Msg::M11, l)));
    v.push(Effect::Say(item_line("12. ", Msg::M12, l)));
    v.push(Effect::Say(item_line("13. ", Msg::M13, l)));
    v.push(Effect::Say(item_line("14. ", Msg::M14, l)));
    v.push(Effect::Say(String::from_str("========================================")));
    v.push(Effect::Say(tr(Msg::Footer, l)));
    v.push(Effect::Ask(tr(Msg::PromptChoice, l)));
    reveal(menu_view);
    assert(effects_view(v@) =~= menu_view(cfg@));
    v
}

fn list_effects(head: String, items: &Vec<String>) -> (v: Vec<Effect>)
    ensures
        effects_view(v@) == seq![EffectView::Say(head@)] + listed(items.deep_view()),
{
    let mut v: Vec<Effect> = Vec::new();
    let ghost h = head@;
    v.push(Effect::Say(head));
    let mut i: usize = 0;
    while i < items.len()
        invariant
            i <= items@.len(),
            v@.len() == i + 1,
            v@[0]@ == EffectView::Say(h),
            forall|k: int| 0 <= k < i ==> #[trigger] v@[k + 1]@ == EffectView::Say("  - "@ + items.deep_view()[k]),
        decreases items@.len() - i,
    {
        let mut s = String::from_str("  - ");
        s.append(items[i].as_str());
        assert(items.deep_view()[i as int] == items[i as int]@);
        v.push(Effect::Say(s));
        i += 1;
    }
    let ghost want = seq![EffectView::Say(h)] + listed(items.deep_view());
    assert forall|k: int| 0 <= k < v@.len() implies effects_view(v@)[k] == want[k] by {
        if k > 0 {
            assert(v@[(k - 1) + 1]@ == EffectView::Say("  - "@ + items.deep_view()[k - 1]));
        }
    }
    assert(effects_view(v@) =~= want);
    v
}

fn then_menu(mut first: Vec<Effect>, cfg: &Config) -> (v: Vec<Effect>)
    ensures
        effects_view(v@) == effects_view(first@) + menu_view(cfg@),
{
    let ghost before = first@;
    let mut m = menu_effects(cfg);
    first.append(&mut m);
    assert(effects_view(first@) =~= effects_view(before) + menu_view(cfg@));
    first
}

fn one(e: Effect) -> (v: Vec<Effect>)
    ensures
        effects_view(v@) == seq![e@],
{
    let mut v = Vec::new();
    v.push(e);
    assert(effects_view(v@) =~= seq![e@]);
    v
}

fn two(a: Effect, b: Effect) -> (v: Vec<Effect>)
    ensures
        effects_view(v@) == seq![a@, b@],
{
    let ghost av = a@;
    let ghost bv = b@;
    let mut v = Vec::new();
    v.push(a);
    v.push(b);
    assert(effects_view(v@) =~= seq![av, bv]);
    v
}

fn main_step(cfg: &mut Config, line: &str) -> (r: (MenuState, Vec<Effect>))
    ensures
        step_spec(MenuState::Main, old(cfg)@, line@) == (r.0, final(cfg)@, effects_view(r.1@)),
{
    let l = current_lang(cfg);
    let t = trim(line);
    let c = t.as_str();
    if str_eq(c, "1") {
        (MenuState::Source, one(Effect::Ask(tr(Msg::PromptSource, l))))
    } else if str_eq(c, "2") {
        (MenuState::IncludeMenu, list_effects(tr(Msg::CurrentIncl, l), &cfg.include_dirs))
    } else if str_eq(c, "3") {
        (MenuState::ExtMenu, one(Effect::Say(tr(Msg::CurrentExts, l))))
    } else if str_eq(c, "4") {
        (MenuState::Separator, one(Effect::Ask(tr(Msg::PromptSep, l))))
    } else if str_eq(c, "5") {
        cfg.ignore_system_dirs = !cfg.ignore_system_dirs;
        (MenuState::Main, menu_effects(cfg))
    } else if str_eq(c, "6") {
        (MenuState::ExcludeMenu, list_effects(tr(Msg::CurrentExcl, l), &cfg.exclude_paths))
    } else if str_eq(c, "7") {
        (MenuState::Output, one(Effect::Ask(tr(Msg::PromptOutput, l))))
    } else {
        main_step_more(cfg, c, l)
    }
}

fn main_step_more(cfg: &mut Config, c: &str, l: Lang) -> (r: (MenuState, Vec<Effect>))
    requires
        l == config_lang(old(cfg)@),
        c@ != "1"@ && c@ != "2"@ && c@ != "3"@ && c@ != "4"@ && c@ != "5"@ && c@ != "6"@ && c@ != "7"@,
    ensures
        (r.0, final(cfg)@, effects_view(r.1@)) == main_rest_spec(old(cfg)@, c@, l),
{
    if str_eq(c, "8") {
        (MenuState::Main, then_menu(one(Effect::Copy(l)), cfg))
    } else if str_eq(c, "9") {
        (MenuState::Main, then_menu(one(Effect::Preview(l)), cfg))
    } else if str_eq(c, "10") {
        *cfg = Config::default();
        (MenuState::Main, then_menu(one(Effect::Say(tr(Msg::ResetSuccess, l))), cfg))
    } else if str_eq(c, "11") {
        let v = two(Effect::Save, Effect::Say(tr(Msg::SaveSuccess, l)));
        (MenuState::Main, then_menu(v, cfg))
    } else if str_eq(c, "12") {
        (MenuState::Main, then_menu(one(Effect::Say(tr(Msg::UsageDetails, l))), cfg))
    } else if str_eq(c, "13") {
        (MenuState::Language, one(Effect::Say(String::from_str("1. RU\n2. EN\n3. ZH"))))
    } else if str_eq(c, "14") {
        (MenuState::Main, two(Effect::Say(tr(Msg::ExitMsg, l)), Effect::Quit))
    } else {
        (MenuState::Main, then_menu(one(Effect::Say(tr(Msg::InvalidChoice, l))), cfg))
    }
}

fn include_step(cfg: &mut Config, line: &str) -> (r: (MenuState, Vec<Effect>))
    ensures
        step_spec(MenuState::IncludeMenu, old(cfg)@, line@) == (r.0, final(cfg)@, effects_view(r.1@)),
{
    let l = current_lang(cfg);
    let t = trim(line);
    let c = t.as_str();
    if str_eq(c, "1") {
        (MenuState::IncludeAdd, one(Effect::Ask(tr(Msg::PromptAddIncl, l))))
    } else if str_eq(c, "2") {
        (MenuState::IncludeRemove, one(Effect::Ask(tr(Msg::PromptRemIncl, l))))
    } else if str_eq(c, "3") {
        cfg.include_dirs.clear();
        assert(cfg.include_dirs.deep_view() =~= Seq::<Seq<char>>::empty());
        (MenuState::Main, then_menu(one(Effect::Say(tr(Msg::PromptClearIncl, l))), cfg))
    } else {
        (MenuState::Main, menu_effects(cfg))
    }
}

fn ext_step(cfg: &mut Config, line: &str) -> (r: (MenuState, Vec<Effect>))
    ensures
        step_spec(MenuState::ExtMenu, old(cfg)@, line@) == (r.0, final(cfg)@, effects_view(r.1@)),
{
    let l = current_lang(cfg);
    let t = trim(line);
    let c = t.as_str();
    if str_eq(c, "1") {
        (MenuState::ExtAdd, one(Effect::Ask(tr(Msg::PromptAddExt, l))))
    } else if str_eq(c, "2") {
        (MenuState::ExtRemove, one(Effect::Ask(tr(Msg::PromptRemExt, l))))
    } else if str_eq(c, "3") {
        cfg.use_all_files = !cfg.use_all_files;
        (MenuState::Main, then_menu(one(Effect::Say(tr(Msg::UseAllFiles, l))), cfg))
    } else {
        (MenuState::Main, menu_effects(cfg))
    }
}

fn exclude_step(cfg: &mut Config, line: &str) -> (r: (MenuState, Vec<Effect>))
    ensures
        step_spec(MenuState::ExcludeMenu, old(cfg)@, line@) == (r.0, final(cfg)@, effects_view(r.1@)),
{
    let l = current_lang(cfg);
    let t = trim(line);
    let c = t.as_str();
    if str_eq(c, "1") {
        (MenuState::ExcludeAdd, one(Effect::Ask(tr(Msg::PromptAddExcl, l))))
    } else if str_eq(c, "2") {
        (MenuState::ExcludeRemove, one(Effect::Ask(tr(Msg::PromptRemExcl, l))))
    } else if str_eq(c, "3") {
        cfg.exclude_paths.clear();
        assert(cfg.exclude_paths.deep_view() =~= Seq::<Seq<char>>::empty());
        (MenuState::Main, then_menu(one(Effect::Say(tr(Msg::PromptClearExcl, l))), cfg))
    } else {
        (MenuState::Main, menu_effects(cfg))
    }
}

/// Takes a line typed while the menu waits in `state`: changes the settings
/// and gives the next state and the effects, as `step_spec` describes.
pub fn menu_step(state: MenuState, cfg: &mut Config, line: &str) -> (r: (MenuState, Vec<Effect>))
    ensures
        step_spec(state, old(cfg)@, line@) == (r.0, final(cfg)@, effects_view(r.1@)),
{
    match state {
        MenuState::Main => main_step(cfg, line),
        MenuState::IncludeMenu => include_step(cfg, line),
        MenuState::ExtMenu => ext_step(cfg, line),
        MenuState::ExcludeMenu => exclude_step(cfg, line),
        MenuState::Source => {
            cfg.last_source = trim(line);
            (MenuState::Main, menu_effects(cfg))
        },
        MenuState::IncludeAdd => {
            add_include_dir(cfg, line);
            (MenuState::Main, menu_effects(cfg))
        },
        MenuState::IncludeRemove => {
            remove_include_dir(cfg, line);
            (MenuState::Main, menu_effects(cfg))
        },
        MenuState::ExtAdd => {
            add_extension(cfg, line);
            (MenuState::Main, menu_effects(cfg))
        },
        MenuState::ExtRemove => {
            remove_extension(cfg, line);
            (MenuState::Main, menu_effects(cfg))
        },
        MenuState::Separator => {
            set_separator(cfg, line);
            (MenuState::Main, menu_effects(cfg))
        },
        MenuState::ExcludeAdd => {
            add_exclude_path(cfg, line);
            (MenuState::Main, menu_effects(cfg))
        },
        MenuState::ExcludeRemove => {
            remove_exclude_path(cfg, line);
            (MenuState::Main, menu_effects(cfg))
        },
        MenuState::Output => {
            cfg.last_output = trim(line);
            (MenuState::Main, menu_effects(cfg))
        },
        MenuState::Language => {
            set_language(cfg, line);
            (MenuState::Main, menu_effects(cfg))
        },
    }
}

} // verus!
