use copy_prog::config::Config;
use copy_prog::menu::{menu_effects, menu_step, Effect, MenuState};
use copy_prog::Lang;

fn texts(v: &[Effect]) -> Vec<String> {
    v.iter()
        .map(|e| match e {
            Effect::Say(s) => format!("say:{}", s),
            Effect::Ask(s) => format!("ask:{}", s),
            Effect::Copy(l) => format!("copy:{:?}", l),
            Effect::Preview(l) => format!("preview:{:?}", l),
            Effect::Save => "save".to_string(),
            Effect::Quit => "quit".to_string(),
        })
        .collect()
}

#[test]
fn the_menu_lists_settings_in_the_configured_language() {
    let mut c = Config::default();
    c.language = "EN".to_string();
    c.include_dirs = vec!["a".to_string(), "b".to_string()];
    let t = texts(&menu_effects(&c));
    assert_eq!(t.len(), 19);
    assert_eq!(t[0], "say:\n========================================");
    assert_eq!(t[1], "say:MAIN MENU");
    assert_eq!(t[2], "say:1. Select source folder (.)");
    assert_eq!(t[3], "say:2. Select specific folders (2 folders)");
    assert_eq!(t[4], "say:3. Configure extensions ([\".rs\", \".toml\"])");
    assert_eq!(t[5], "say:4. Configure separator (0-5) (2)");
    assert_eq!(t[6], "say:5. Ignore system directories (true)");
    assert_eq!(t[7], "say:6. Configure path exclusions (None)");
    assert_eq!(t[8], "say:7. Select output file (merged_output.txt)");
    assert_eq!(t[9], "say:8. Run copy");
    assert_eq!(t[15], "say:14. Exit");
    assert_eq!(t[16], "say:========================================");
    assert_eq!(t[18], "ask:Your choice: ");
}

#[test]
fn the_menu_in_russian_by_default() {
    let c = Config::default();
    let t = texts(&menu_effects(&c));
    assert_eq!(t[1], "say:ГЛАВНОЕ МЕНЮ");
    assert_eq!(t[3], "say:2. Выбрать определённые папки (Все папки)");
    assert_eq!(t[7], "say:6. Настроить исключения по путям (Нет)");
}

#[test]
fn choosing_the_source_asks_and_then_stores_it() {
    let mut c = Config::default();
    c.language = "EN".to_string();
    let (st, eff) = menu_step(MenuState::Main, &mut c, " 1\n");
    assert_eq!(st, MenuState::Source);
    assert_eq!(texts(&eff), vec!["ask:Enter source folder path: "]);
    let (st, eff) = menu_step(st, &mut c, "  ../proj \n");
    assert_eq!(st, MenuState::Main);
    assert_eq!(c.last_source, "../proj");
    assert_eq!(texts(&eff)[2], "say:1. Select source folder (../proj)");
}

#[test]
fn toggling_system_dirs_twice_restores_it() {
    let mut c = Config::default();
    let (_, _) = menu_step(MenuState::Main, &mut c, "5");
    assert!(!c.ignore_system_dirs);
    let (st, _) = menu_step(MenuState::Main, &mut c, "5\n");
    assert!(c.ignore_system_dirs);
    assert_eq!(st, MenuState::Main);
}

#[test]
fn include_menu_lists_adds_and_clears() {
    let mut c = Config::default();
    c.language = "EN".to_string();
    c.include_dirs = vec!["x".to_string()];
    let (st, eff) = menu_step(MenuState::Main, &mut c, "2");
    assert_eq!(st, MenuState::IncludeMenu);
    assert_eq!(texts(&eff), vec!["say:1. Add\n2. Remove\n3. Clear all", "say:  - x"]);
    let (st, eff) = menu_step(st, &mut c, "1");
    assert_eq!(st, MenuState::IncludeAdd);
    assert_eq!(texts(&eff), vec!["ask:Enter folder path to include: "]);
    let (st, _) = menu_step(st, &mut c, "y\n");
    assert_eq!(st, MenuState::Main);
    assert_eq!(c.include_dirs, vec!["x".to_string(), "y".to_string()]);
    let (st, _) = menu_step(MenuState::IncludeMenu, &mut c, "2");
    let (_, _) = menu_step(st, &mut c, "x");
    assert_eq!(c.include_dirs, vec!["y".to_string()]);
    let (st, eff) = menu_step(MenuState::IncludeMenu, &mut c, "3");
    assert_eq!(st, MenuState::Main);
    assert!(c.include_dirs.is_empty());
    assert_eq!(texts(&eff)[0], "say:Included folders list cleared.");
    let (st, eff) = menu_step(MenuState::IncludeMenu, &mut c, "9");
    assert_eq!(st, MenuState::Main);
    assert_eq!(eff.len(), 19);
}

#[test]
fn extension_menu_adds_removes_and_toggles() {
    let mut c = Config::default();
    let (st, _) = menu_step(MenuState::Main, &mut c, "3");
    assert_eq!(st, MenuState::ExtMenu);
    let (st, _) = menu_step(st, &mut c, "1");
    assert_eq!(st, MenuState::ExtAdd);
    let (_, _) = menu_step(st, &mut c, "md");
    assert_eq!(c.enabled_extensions.last().unwrap(), ".md");
    let (st, _) = menu_step(MenuState::ExtMenu, &mut c, "2");
    assert_eq!(st, MenuState::ExtRemove);
    let (_, _) = menu_step(st, &mut c, ".rs");
    assert_eq!(c.enabled_extensions, vec![".toml".to_string(), ".md".to_string()]);
    let (_, eff) = menu_step(MenuState::ExtMenu, &mut c, "3");
    assert!(c.use_all_files);
    assert_eq!(texts(&eff)[0], "say:Режим 'Все файлы' переключен.");
}

#[test]
fn separator_and_output_are_set() {
    let mut c = Config::default();
    let (st, eff) = menu_step(MenuState::Main, &mut c, "4");
    assert_eq!(st, MenuState::Separator);
    assert_eq!(texts(&eff), vec!["ask:Введите число пустых строк (0-5): "]);
    let (_, _) = menu_step(st, &mut c, "4");
    assert_eq!(c.separator_lines, 4);
    let (_, _) = menu_step(MenuState::Separator, &mut c, "10");
    assert_eq!(c.separator_lines, 4);
    let (st, _) = menu_step(MenuState::Main, &mut c, "7");
    assert_eq!(st, MenuState::Output);
    let (_, _) = menu_step(st, &mut c, " all.txt ");
    assert_eq!(c.last_output, "all.txt");
}

#[test]
fn exclude_menu_works_like_include_menu() {
    let mut c = Config::default();
    let (st, _) = menu_step(MenuState::Main, &mut c, "6");
    assert_eq!(st, MenuState::ExcludeMenu);
    let (st, _) = menu_step(st, &mut c, "1");
    assert_eq!(st, MenuState::ExcludeAdd);
    let (_, _) = menu_step(st, &mut c, "build");
    assert_eq!(c.exclude_paths, vec!["build".to_string()]);
    let (_, _) = menu_step(MenuState::ExcludeRemove, &mut c, "build");
    assert!(c.exclude_paths.is_empty());
    c.exclude_paths = vec!["a".to_string()];
    let (_, eff) = menu_step(MenuState::ExcludeMenu, &mut c, "3");
    assert!(c.exclude_paths.is_empty());
    assert_eq!(texts(&eff)[0], "say:Список исключений очищен.");
}

#[test]
fn copy_preview_save_usage_and_exit() {
    let mut c = Config::default();
    c.language = "ZH".to_string();
    let (_, eff) = menu_step(MenuState::Main, &mut c, "8");
    assert_eq!(texts(&eff)[0], "copy:ZH");
    assert_eq!(eff.len(), 20);
    let (_, eff) = menu_step(MenuState::Main, &mut c, "9");
    assert_eq!(texts(&eff)[0], "preview:ZH");
    let (_, eff) = menu_step(MenuState::Main, &mut c, "11");
    assert_eq!(texts(&eff)[0..2], ["save".to_string(), "say:设置已保存".to_string()]);
    let (_, eff) = menu_step(MenuState::Main, &mut c, "12");
    assert!(texts(&eff)[0].starts_with("say:说明:"));
    let (_, eff) = menu_step(MenuState::Main, &mut c, "14");
    assert_eq!(texts(&eff), vec!["say:再见!", "quit"]);
    let (_, eff) = menu_step(MenuState::Main, &mut c, "what");
    assert_eq!(texts(&eff)[0], "say:无效选择");
}

#[test]
fn reset_restores_defaults_and_reports_in_the_old_language() {
    let mut c = Config::default();
    c.language = "EN".to_string();
    c.separator_lines = 5;
    let (_, eff) = menu_step(MenuState::Main, &mut c, "10");
    assert_eq!(c.separator_lines, 2);
    assert_eq!(c.language, "RU");
    let t = texts(&eff);
    assert_eq!(t[0], "say:Settings reset.");
    assert_eq!(t[2], "say:ГЛАВНОЕ МЕНЮ");
}

#[test]
fn language_menu_switches_the_interface() {
    let mut c = Config::default();
    let (st, eff) = menu_step(MenuState::Main, &mut c, "13");
    assert_eq!(st, MenuState::Language);
    assert_eq!(texts(&eff), vec!["say:1. RU\n2. EN\n3. ZH"]);
    let (st, eff) = menu_step(st, &mut c, "2");
    assert_eq!(st, MenuState::Main);
    assert_eq!(c.language, "EN");
    assert_eq!(texts(&eff)[1], "say:MAIN MENU");
    assert_eq!(Lang::EN, copy_prog::config::current_lang(&c));
}

const STATES: [MenuState; 14] = [
    MenuState::Main,
    MenuState::Source,
    MenuState::IncludeMenu,
    MenuState::IncludeAdd,
    MenuState::IncludeRemove,
    MenuState::ExtMenu,
    MenuState::ExtAdd,
    MenuState::ExtRemove,
    MenuState::Separator,
    MenuState::ExcludeMenu,
    MenuState::ExcludeAdd,
    MenuState::ExcludeRemove,
    MenuState::Output,
    MenuState::Language,
];

const ANSWERS: [&str; 17] = [
    "1", "2", "3", "4", "5", "6", "7", "8", "9", "10", "11", "12", "13", "14", "", "x", "5 ",
];

#[test]
fn back_at_the_main_menu_it_asks_or_quits() {
    for s in STATES {
        for a in ANSWERS {
            let mut c = Config::default();
            c.language = "EN".to_string();
            let (next, eff) = menu_step(s, &mut c, a);
            if next == MenuState::Main {
                let last = texts(&eff).pop().unwrap();
                let prompt = format!("ask:{}", copy_prog::tr(copy_prog::Msg::PromptChoice, copy_prog::config::current_lang(&c)));
                assert!(last == prompt || last == "quit", "{:?} {:?} {}", s, a, last);
            }
        }
    }
}

#[test]
fn sub_questions_lead_back_within_one_answer() {
    for s in STATES {
        if s == MenuState::Main {
            continue;
        }
        for a in ANSWERS {
            for b in ANSWERS {
                let mut c = Config::default();
                let (s1, _) = menu_step(s, &mut c, a);
                if s1 != MenuState::Main {
                    let (s2, _) = menu_step(s1, &mut c, b);
                    assert_eq!(s2, MenuState::Main);
                }
            }
        }
    }
}
