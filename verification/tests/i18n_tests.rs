use copy_prog::i18n::{lang_from_upper, parse_lang};
use copy_prog::{tr, Lang, Msg};

#[test]
fn tr_gives_the_text_of_each_language() {
    assert_eq!(tr(Msg::MenuTitle, Lang::RU), "ГЛАВНОЕ МЕНЮ");
    assert_eq!(tr(Msg::MenuTitle, Lang::EN), "MAIN MENU");
    assert_eq!(tr(Msg::MenuTitle, Lang::ZH), "主菜单");
    assert_eq!(tr(Msg::M14, Lang::EN), "Exit");
    assert_eq!(tr(Msg::StatusNotIncl, Lang::RU), "[НЕ ВКЛ]");
    assert_eq!(tr(Msg::Yes, Lang::ZH), "Y");
    assert_eq!(tr(Msg::PreviewTitle, Lang::EN), "PREVIEW: {} files will be copied");
    assert_eq!(
        tr(Msg::CurrentExts, Lang::EN),
        "1. Add\n2. Remove\n3. Toggle 'All files'"
    );
}

#[test]
fn every_message_is_translated() {
    let all = [
        Msg::Footer, Msg::MenuTitle, Msg::M1, Msg::M2, Msg::M3, Msg::M4, Msg::M5, Msg::M6,
        Msg::M7, Msg::M8, Msg::M9, Msg::M10, Msg::M11, Msg::M12, Msg::M13, Msg::M14,
        Msg::PromptChoice, Msg::PromptSource, Msg::PromptOutput, Msg::CurrentExts,
        Msg::PromptAddExt, Msg::PromptRemExt, Msg::UseAllFiles, Msg::CurrentSep, Msg::PromptSep,
        Msg::CurrentExcl, Msg::PromptAddExcl, Msg::PromptRemExcl, Msg::PromptClearExcl,
        Msg::CurrentIncl, Msg::PromptAddIncl, Msg::PromptRemIncl, Msg::PromptClearIncl,
        Msg::PreviewTitle, Msg::PreviewNext, Msg::RunCopyPrompt, Msg::Yes, Msg::InvalidChoice,
        Msg::Utf8Warn, Msg::ResetSuccess, Msg::SaveSuccess, Msg::ExitMsg, Msg::StatusOk,
        Msg::StatusExcl, Msg::StatusSys, Msg::StatusExt, Msg::StatusNotIncl, Msg::UsageDetails,
    ];
    for m in all {
        for l in [Lang::RU, Lang::EN, Lang::ZH] {
            assert!(!tr(m, l).is_empty());
        }
    }
}

#[test]
fn language_codes_name_their_language() {
    assert_eq!(lang_from_upper("RU"), Some(Lang::RU));
    assert_eq!(lang_from_upper("EN"), Some(Lang::EN));
    assert_eq!(lang_from_upper("ZH"), Some(Lang::ZH));
    assert_eq!(lang_from_upper("АНГЛ"), Some(Lang::EN));
    assert_eq!(lang_from_upper("ru"), None);
}

#[test]
fn language_names_are_read_in_any_case() {
    assert_eq!(parse_lang("ru"), Ok(Lang::RU));
    assert_eq!(parse_lang("En"), Ok(Lang::EN));
    assert_eq!(parse_lang("zh"), Ok(Lang::ZH));
    assert_eq!(parse_lang("ру"), Ok(Lang::RU));
    assert_eq!(parse_lang("кит"), Ok(Lang::ZH));
    assert_eq!(parse_lang("англ"), Ok(Lang::EN));
}

#[test]
fn unknown_language_is_an_error_naming_it() {
    assert_eq!(parse_lang("fr"), Err("Invalid language: fr".to_string()));
    assert_eq!(parse_lang(""), Err("Invalid language: ".to_string()));
    assert_eq!(parse_lang(" RU"), Err("Invalid language:  RU".to_string()));
}

#[test]
fn from_str_parses_languages() {
    assert_eq!("ZH".parse::<Lang>(), Ok(Lang::ZH));
    assert!("de".parse::<Lang>().is_err());
}

#[test]
fn debug_names_read_back_in_any_case() {
    for l in [Lang::RU, Lang::EN, Lang::ZH] {
        let name = format!("{:?}", l);
        assert_eq!(name.parse::<Lang>(), Ok(l));
        assert_eq!(name.to_lowercase().parse::<Lang>(), Ok(l));
        assert_eq!(parse_lang(&name.to_lowercase()), Ok(l));
    }
}

#[test]
fn languages_read_differently() {
    for m in [Msg::Footer, Msg::M1, Msg::PromptSep, Msg::StatusExcl, Msg::UsageDetails] {
        let ru = tr(m, Lang::RU);
        let en = tr(m, Lang::EN);
        let zh = tr(m, Lang::ZH);
        assert!(ru != en && en != zh && ru != zh);
    }
}

#[test]
fn status_marks_are_distinct_and_bracketed() {
    let marks = [Msg::StatusOk, Msg::StatusExcl, Msg::StatusSys, Msg::StatusExt, Msg::StatusNotIncl];
    for l in [Lang::RU, Lang::EN, Lang::ZH] {
        let texts: Vec<String> = marks.iter().map(|m| tr(*m, l)).collect();
        for (i, a) in texts.iter().enumerate() {
            assert!(a.starts_with('[') && a.ends_with(']'));
            for b in &texts[i + 1..] {
                assert_ne!(a, b);
            }
        }
    }
}

#[test]
fn menu_labels_are_distinct() {
    let items = [
        Msg::M1, Msg::M2, Msg::M3, Msg::M4, Msg::M5, Msg::M6, Msg::M7, Msg::M8, Msg::M9,
        Msg::M10, Msg::M11, Msg::M12, Msg::M13, Msg::M14,
    ];
    for l in [Lang::RU, Lang::EN, Lang::ZH] {
        let texts: Vec<String> = items.iter().map(|m| tr(*m, l)).collect();
        for (i, a) in texts.iter().enumerate() {
            for b in &texts[i + 1..] {
                assert_ne!(a, b);
            }
        }
    }
}
