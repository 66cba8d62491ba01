//! Properties that hold across the library's operations.
use vstd::prelude::*;

use crate::config::{
    with_cli, CliOptions, config_lang, default_view, dotted, language_choice, separator_choice, without, ConfigView,
};
use crate::filter::{
    Outcome, excluded, inside_included, is_system_name, outcome_of, shown_path, FilterReason, FilterSettings, WalkEntry,
};
use crate::i18n::{lang_code, lang_named, tr_text, Lang, Msg};
use crate::menu::{menu_view, step_spec, EffectView, MenuState};
use crate::filter::FileEntry;
use crate::output::{
    answer_spec, block_text, marker_msg, newlines, ok_positions, page_end, preview_line_text, run_spec, PreviewNext, PreviewWait,
};
use crate::paths::{extension_of, is_prefix, last_dot, normalized};
use crate::text::{
    all_digits, ascii_lower, decimal, digit_char, digits_value, parse_u8_spec, trim_end, trim_start, trimmed,
    unsigned_digits, white_space,
};

verus! {

// ---------------------------------------------------------------------------
// Text
// ---------------------------------------------------------------------------

proof fn lemma_trim_start_suffix(s: Seq<char>)
    ensures
        trim_start(s).len() <= s.len(),
        trim_start(s) == s.skip(s.len() - trim_start(s).len()),
        trim_start(s).len() == 0 || !white_space(trim_start(s)[0]),
    decreases s.len(),
{
    if s.len() > 0 && white_space(s[0]) {
        let t = s.drop_first();
        lemma_trim_start_suffix(t);
        let j = t.len() - trim_start(t).len();
        assert(t.skip(j) =~= s.skip(j + 1));
    } else {
        assert(s.skip(0) =~= s);
    }
}

proof fn lemma_trim_end_prefix(s: Seq<char>)
    ensures
        trim_end(s).len() <= s.len(),
        trim_end(s) == s.take(trim_end(s).len() as int),
        trim_end(s).len() == 0 || !white_space(trim_end(s).last()),
    decreases s.len(),
{
    if s.len() > 0 && white_space(s.last()) {
        let t = s.drop_last();
        lemma_trim_end_prefix(t);
        let m = trim_end(t).len() as int;
        assert(t.take(m) =~= s.take(m));
    } else {
        assert(s.take(s.len() as int) =~= s);
    }
}

/// Trimming twice is trimming once.
pub proof fn law_trim_idempotent(s: Seq<char>)
    ensures
        trimmed(trimmed(s)) == trimmed(s),
{
    let a = trim_start(s);
    let b = trim_end(a);
    lemma_trim_start_suffix(s);
    lemma_trim_end_prefix(a);
    // `b` begins where `a` begins, and `a` does not begin with whitespace.
    if b.len() > 0 {
        assert(b[0] == a[0]);
    }
    assert(trim_start(b) == b);
    // `b` does not end with whitespace.
    assert(trim_end(b) == b);
}

proof fn lemma_digit_char(d: int)
    requires
        0 <= d < 10,
    ensures
        digit_char(d) as int == d + 48,
        '0' <= digit_char(d) <= '9',
{
}

proof fn lemma_digits_value_push(d: Seq<char>, c: char)
    ensures
        digits_value(d.push(c)) == digits_value(d) * 10 + (c as int - 48),
{
    assert(d.push(c).drop_last() == d);
}

proof fn lemma_decimal_digits(n: nat)
    ensures
        decimal(n).len() > 0,
        all_digits(decimal(n)),
        digits_value(decimal(n)) == n,
        decimal(n)[0] != '+',
    decreases n,
{
    if n < 10 {
        lemma_digit_char(n as int);
        let d = decimal(n);
        assert(d == seq![digit_char(n as int)]);
        assert(d.drop_last() == Seq::<char>::empty());
        assert(d.last() == digit_char(n as int));
        assert(digits_value(d) == digits_value(d.drop_last()) * 10 + (d.last() as int - 48));
    } else {
        lemma_decimal_digits(n / 10);
        let p = decimal(n / 10);
        let c = digit_char((n % 10) as int);
        lemma_digit_char((n % 10) as int);
        lemma_digits_value_push(p, c);
        assert(decimal(n) == p.push(c));
        assert(digits_value(decimal(n)) == (n / 10) * 10 + (n % 10));
        assert forall|i: int| 0 <= i < decimal(n).len() implies '0' <= #[trigger] decimal(n)[i]
            && decimal(n)[i] <= '9' by {
            if i < p.len() {
                assert(decimal(n)[i] == p[i]);
            }
        }
        assert(decimal(n)[0] == p[0]);
    }
}

/// Reading back the decimal text of a number from 0 to 255 gives the number.
pub proof fn law_parse_u8_reads_decimal(n: u8)
    ensures
        parse_u8_spec(decimal(n as nat)) == Some(n),
{
    lemma_decimal_digits(n as nat);
    assert(unsigned_digits(decimal(n as nat)) == decimal(n as nat));
}

// ---------------------------------------------------------------------------
// Paths
// ---------------------------------------------------------------------------

/// A normalised path is never empty.
pub proof fn law_normalized_not_empty(parts: Seq<(bool, Seq<char>)>)
    ensures
        normalized(parts).len() > 0,
{
    reveal_strlit(".");
}

proof fn lemma_last_dot(n: Seq<char>)
    ensures
        -1 <= last_dot(n) < n.len(),
        forall|j: int| last_dot(n) < j < n.len() ==> n[j] != '.',
    decreases n.len(),
{
    if n.len() > 0 && n.last() != '.' {
        let m = n.drop_last();
        lemma_last_dot(m);
        assert forall|j: int| last_dot(n) < j < n.len() implies n[j] != '.' by {
            if j < m.len() {
                assert(n[j] == m[j]);
            }
        }
    }
}

/// An extension never holds a `.`.
pub proof fn law_extension_has_no_dot(name: Seq<char>)
    ensures
        extension_of(name) matches Some(e) ==> !e.contains('.'),
{
    lemma_last_dot(name);
    if let Some(e) = extension_of(name) {
        let k = last_dot(name);
        assert forall|i: int| 0 <= i < e.len() implies e[i] != '.' by {
            assert(e[i] == name[k + 1 + i]);
        }
    }
}

/// A listed directory other than `.` ends with `/`.
pub proof fn law_shown_directory_ends_with_slash(rel: Seq<char>)
    ensures
        shown_path(rel, true) == "."@ || shown_path(rel, true).last() == '/',
{
}

// ---------------------------------------------------------------------------
// Filtering
// ---------------------------------------------------------------------------

/// Only files are ever collected.
pub proof fn law_only_files_collected(s: FilterSettings, e: WalkEntry)
    ensures
        outcome_of(s, e).status == Some(Ok::<(), FilterReason>(())) ==> e.is_file,
{
}

/// The walk only skips the contents of directories.
pub proof fn law_only_directories_skipped(s: FilterSettings, e: WalkEntry)
    ensures
        outcome_of(s, e).skip_dir ==> e.is_dir,
{
}

/// A path in an excluded directory is never collected, whatever the included
/// directories and extensions say; unless it is a system directory, it is
/// listed as excluded.
pub proof fn law_exclusion_wins(s: FilterSettings, e: WalkEntry)
    requires
        excluded(e.abs_path.deep_view(), s.exclude_dirs.deep_view()),
    ensures
        outcome_of(s, e).status != Some(Ok::<(), FilterReason>(())),
        !(s.ignore_system_dirs && e.is_dir && is_system_name(e.name@)) ==> outcome_of(s, e).status
            == Some(Err::<(), FilterReason>(FilterReason::Excluded)),
{
}

/// With no included directories given, every file outside the excluded
/// directories is collected when all files are taken.
pub proof fn law_all_files_mode(s: FilterSettings, e: WalkEntry)
    requires
        s.use_all_files,
        s.include_dirs@.len() == 0,
        e.is_file,
        !(s.ignore_system_dirs && e.is_dir && is_system_name(e.name@)),
        !excluded(e.abs_path.deep_view(), s.exclude_dirs.deep_view()),
    ensures
        outcome_of(s, e).status == Some(Ok::<(), FilterReason>(())),
{
}

// ---------------------------------------------------------------------------
// Settings
// ---------------------------------------------------------------------------

proof fn lemma_push_contains(s: Seq<Seq<char>>, a: Seq<char>, y: Seq<char>)
    ensures
        s.push(a).contains(y) <==> (s.contains(y) || a == y),
{
    if s.contains(y) {
        let i = choose|i: int| 0 <= i < s.len() && s[i] == y;
        assert(s.push(a)[i] == y);
    }
    if a == y {
        assert(s.push(a)[s.len() as int] == y);
    }
    if s.push(a).contains(y) {
        let i = choose|i: int| 0 <= i < s.push(a).len() && s.push(a)[i] == y;
        if i < s.len() {
            assert(s[i] == y);
        }
    }
}

/// Removing a value from a list leaves exactly the other values.
pub proof fn law_without_removes_only(s: Seq<Seq<char>>, x: Seq<char>, y: Seq<char>)
    ensures
        without(s, x).contains(y) <==> (s.contains(y) && y != x),
    decreases s.len(),
{
    if s.len() > 0 {
        let t = s.drop_last();
        let z = s.last();
        law_without_removes_only(t, x, y);
        assert(s == t.push(z));
        lemma_push_contains(t, z, y);
        if z != x {
            lemma_push_contains(without(t, x), z, y);
        }
    }
}

/// Removing an extension, typed with or without its dot, undoes enabling it.
pub proof fn law_remove_extension_undoes_add(exts: Seq<Seq<char>>, t: Seq<char>)
    ensures
        !without(without(exts.push(dotted(t)), t), "."@ + t).contains(dotted(t)),
{
    law_without_removes_only(without(exts.push(dotted(t)), t), "."@ + t, dotted(t));
    law_without_removes_only(exts.push(dotted(t)), t, dotted(t));
}

/// The separator chosen in the menu is always from 0 to 5.
pub proof fn law_separator_at_most_five(input: Seq<char>)
    ensures
        separator_choice(input) matches Some(n) ==> n <= 5,
{
}

/// Choosing "toggle system directories" twice leaves the settings as they were.
pub proof fn law_toggle_twice(c: ConfigView, line: Seq<char>)
    requires
        trimmed(line) == "5"@,
    ensures
        step_spec(MenuState::Main, step_spec(MenuState::Main, c, line).1, line).1 == c,
{
    reveal_strlit("5");
    reveal_strlit("1");
    reveal_strlit("2");
    reveal_strlit("3");
    reveal_strlit("4");
}

/// A sub-question of the menu leads back to the main menu after at most one
/// more answer.
pub proof fn law_submenus_return(s: MenuState, c: ConfigView, first: Seq<char>, second: Seq<char>)
    requires
        s != MenuState::Main,
    ensures
        ({
            let (s1, c1, _) = step_spec(s, c, first);
            s1 == MenuState::Main || step_spec(s1, c1, second).0 == MenuState::Main
        }),
{
}

/// Whenever the menu is back at its main level, it has either asked for the
/// next choice, in the language of the new settings, or quit.
pub proof fn law_main_menu_always_asks(s: MenuState, c: ConfigView, line: Seq<char>)
    ensures
        ({
            let (s1, c1, e) = step_spec(s, c, line);
            s1 == MenuState::Main ==> e.len() > 0 && (e.last() == EffectView::Ask(
                tr_text(Msg::PromptChoice, config_lang(c1)),
            ) || e.last() == EffectView::Quit)
        }),
{
    let (s1, c1, e) = step_spec(s, c, line);
    lemma_menu_ends_with_prompt(c1);
    let m = menu_view(c1);
    assert forall|p: Seq<EffectView>| #![trigger p + m] (p + m).len() > 0 && (p + m).last() == m.last() by {
    }
}

proof fn lemma_menu_ends_with_prompt(c: ConfigView)
    ensures
        menu_view(c).len() > 0,
        menu_view(c).last() == EffectView::Ask(tr_text(Msg::PromptChoice, config_lang(c))),
{
    reveal(menu_view);
}

// ---------------------------------------------------------------------------
// Languages and output
// ---------------------------------------------------------------------------

/// Each language code names its language.
pub proof fn law_language_codes()
    ensures
        lang_named("RU"@) == Some(Lang::RU),
        lang_named("EN"@) == Some(Lang::EN),
        lang_named("ZH"@) == Some(Lang::ZH),
{
    reveal_strlit("RU");
    reveal_strlit("РУ");
    reveal_strlit("EN");
    reveal_strlit("АНГЛ");
    reveal_strlit("ZH");
    reveal_strlit("КИТ");
    assert("EN"@[0] != "RU"@[0] && "EN"@[0] != "РУ"@[0]);
    assert("ZH"@[0] != "RU"@[0] && "ZH"@[0] != "РУ"@[0]);
    assert("ZH"@[0] != "EN"@[0] && "ZH"@[0] != "АНГЛ"@[0]);
}

/// The block of a file followed by others is the block of the last file plus
/// the separator's empty lines.
pub proof fn law_separator_only_between_files(rel: Seq<char>, content: Seq<char>, sep: u8)
    ensures
        block_text(rel, content, true, sep) == block_text(rel, content, false, sep) + newlines(
            sep as nat,
        ),
{
    assert(block_text(rel, content, false, sep) == block_text(rel, content, false, sep) + Seq::<
        char,
    >::empty());
}

/// Every message has a non-empty text in every language.
pub proof fn law_every_message_translated(msg: Msg, lang: Lang)
    ensures
        tr_text(msg, lang).len() > 0,
{
    match msg {
        Msg::Footer => match lang {
            Lang::RU => reveal_strlit("Сделано в России. Программа создана полностью на языке программирования Rust. Автор программы: М. Мих. Мир"),
            Lang::EN => reveal_strlit("Made in Russia. The program is created entirely in the Rust programming language. Author: M. Mikh. Mir"),
            Lang::ZH => reveal_strlit("在俄罗斯制造。该程序完全使用 Rust 编程语言创建。作者：M. Mikh. Mir"),
        },
        Msg::MenuTitle => match lang {
            Lang::RU => reveal_strlit("ГЛАВНОЕ МЕНЮ"),
            Lang::EN => reveal_strlit("MAIN MENU"),
            Lang::ZH => reveal_strlit("主菜单"),
        },
        Msg::M1 => match lang {
            Lang::RU => reveal_strlit("Выбрать исходную папку"),
            Lang::EN => reveal_strlit("Select source folder"),
            Lang::ZH => reveal_strlit("选择源文件夹"),
        },
        Msg::M2 => match lang {
            Lang::RU => reveal_strlit("Выбрать определённые папки"),
            Lang::EN => reveal_strlit("Select specific folders"),
            Lang::ZH => reveal_strlit("选择特定文件夹"),
        },
        Msg::M3 => match lang {
            Lang::RU => reveal_strlit("Настроить расширения"),
            Lang::EN => reveal_strlit("Configure extensions"),
            Lang::ZH => reveal_strlit("配置扩展名"),
        },
        Msg::M4 => match lang {
            Lang::RU => reveal_strlit("Настроить разделитель (0-5)"),
            Lang::EN => reveal_strlit("Configure separator (0-5)"),
            Lang::ZH => reveal_strlit("配置分隔符 (0-5)"),
        },
        Msg::M5 => match lang {
            Lang::RU => reveal_strlit("Игнорировать служебные папки"),
            Lang::EN => reveal_strlit("Ignore system directories"),
            Lang::ZH => reveal_strlit("忽略系统目录"),
        },
        Msg::M6 => match lang {
            Lang::RU => reveal_strlit("Настроить исключения по путям"),
            Lang::EN => reveal_strlit("Configure path exclusions"),
            Lang::ZH => reveal_strlit("配置路径排除"),
        },
        Msg::M7 => match lang {
            Lang::RU => reveal_strlit("Выбрать выходной файл"),
            Lang::EN => reveal_strlit("Select output file"),
            Lang::ZH => reveal_strlit("选择输出文件"),
        },
        Msg::M8 => match lang {
            Lang::RU => reveal_strlit("Запустить копирование"),
            Lang::EN => reveal_strlit("Run copy"),
            Lang::ZH => reveal_strlit("运行复制"),
        },
        Msg::M9 => match lang {
            Lang::RU => reveal_strlit("Показать превью списка файлов"),
            Lang::EN => reveal_strlit("Show file list preview"),
            Lang::ZH => reveal_strlit("显示文件列表预览"),
        },
        Msg::M10 => match lang {
            Lang::RU => reveal_strlit("Сбросить настройки"),
            Lang::EN => reveal_strlit("Reset settings"),
            Lang::ZH => reveal_strlit("重置设置"),
        },
        Msg::M11 => match lang {
            Lang::RU => reveal_strlit("Сохранить как умолчания"),
            Lang::EN => reveal_strlit("Save as defaults"),
            Lang::ZH => reveal_strlit("保存为默认"),
        },
        Msg::M12 => match lang {
            Lang::RU => reveal_strlit("Показать инструкцию"),
            Lang::EN => reveal_strlit("Show instructions"),
            Lang::ZH => reveal_strlit("显示说明"),
        },
        Msg::M13 => match lang {
            Lang::RU => reveal_strlit("Язык интерфейса [Рус] [Eng] [中文]"),
            Lang::EN => reveal_strlit("Interface language [Рус] [Eng] [中文]"),
            Lang::ZH => reveal_strlit("界面语言 [Рус] [Eng] [中文]"),
        },
        Msg::M14 => match lang {
            Lang::RU => reveal_strlit("Выход"),
            Lang::EN => reveal_strlit("Exit"),
            Lang::ZH => reveal_strlit("退出"),
        },
        Msg::PromptChoice => match lang {
            Lang::RU => reveal_strlit("Ваш выбор: "),
            Lang::EN => reveal_strlit("Your choice: "),
            Lang::ZH => reveal_strlit("您的选择: "),
        },
        Msg::PromptSource => match lang {
            Lang::RU => reveal_strlit("Введите путь к исходной папке: "),
            Lang::EN => reveal_strlit("Enter source folder path: "),
            Lang::ZH => reveal_strlit("输入源文件夹路径: "),
        },
        Msg::PromptOutput => match lang {
            Lang::RU => reveal_strlit("Введите имя выходного файла: "),
            Lang::EN => reveal_strlit("Enter output file name: "),
            Lang::ZH => reveal_strlit("输入输出文件名: "),
        },
        Msg::CurrentExts => match lang {
            Lang::RU => reveal_strlit("1. Добавить\n2. Удалить\n3. Переключить 'Все файлы'"),
            Lang::EN => reveal_strlit("1. Add\n2. Remove\n3. Toggle 'All files'"),
            Lang::ZH => reveal_strlit("1. 添加\n2. 删除\n3. 切换'所有文件'"),
        },
        Msg::PromptAddExt => match lang {
            Lang::RU => reveal_strlit("Введите расширение (напр. .md): "),
            Lang::EN => reveal_strlit("Enter extension (e.g. .md): "),
            Lang::ZH => reveal_strlit("输入扩展名 (例如 .md): "),
        },
        Msg::PromptRemExt => match lang {
            Lang::RU => reveal_strlit("Введите расширение для удаления: "),
            Lang::EN => reveal_strlit("Enter extension to remove: "),
            Lang::ZH => reveal_strlit("输入要删除的扩展名: "),
        },
        Msg::UseAllFiles => match lang {
            Lang::RU => reveal_strlit("Режим 'Все файлы' переключен."),
            Lang::EN => reveal_strlit("Toggled 'All files' mode."),
            Lang::ZH => reveal_strlit("已切换'所有文件'模式"),
        },
        Msg::CurrentSep => match lang {
            Lang::RU => reveal_strlit("Текущий разделитель: "),
            Lang::EN => reveal_strlit("Current separator: "),
            Lang::ZH => reveal_strlit("当前分隔符: "),
        },
        Msg::PromptSep => match lang {
            Lang::RU => reveal_strlit("Введите число пустых строк (0-5): "),
            Lang::EN => reveal_strlit("Enter number of empty lines (0-5): "),
            Lang::ZH => reveal_strlit("输入空行数 (0-5): "),
        },
        Msg::CurrentExcl => match lang {
            Lang::RU => reveal_strlit("1. Добавить\n2. Удалить\n3. Очистить все"),
            Lang::EN => reveal_strlit("1. Add\n2. Remove\n3. Clear all"),
            Lang::ZH => reveal_strlit("1. 添加\n2. 删除\n3. 清除所有"),
        },
        Msg::PromptAddExcl => match lang {
            Lang::RU => reveal_strlit("Введите путь для исключения: "),
            Lang::EN => reveal_strlit("Enter path to exclude: "),
            Lang::ZH => reveal_strlit("输入要排除的路径: "),
        },
        Msg::PromptRemExcl => match lang {
            Lang::RU => reveal_strlit("Введите путь для удаления: "),
            Lang::EN => reveal_strlit("Enter path to remove: "),
            Lang::ZH => reveal_strlit("输入要删除的路径: "),
        },
        Msg::PromptClearExcl => match lang {
            Lang::RU => reveal_strlit("Список исключений очищен."),
            Lang::EN => reveal_strlit("Exclusion list cleared."),
            Lang::ZH => reveal_strlit("排除列表已清除"),
        },
        Msg::CurrentIncl => match lang {
            Lang::RU => reveal_strlit("1. Добавить\n2. Удалить\n3. Очистить все"),
            Lang::EN => reveal_strlit("1. Add\n2. Remove\n3. Clear all"),
            Lang::ZH => reveal_strlit("1. 添加\n2. 删除\n3. 清除所有"),
        },
        Msg::PromptAddIncl => match lang {
            Lang::RU => reveal_strlit("Введите путь к папке для включения: "),
            Lang::EN => reveal_strlit("Enter folder path to include: "),
            Lang::ZH => reveal_strlit("输入要包含的文件夹路径: "),
        },
        Msg::PromptRemIncl => match lang {
            Lang::RU => reveal_strlit("Введите путь для удаления: "),
            Lang::EN => reveal_strlit("Enter path to remove: "),
            Lang::ZH => reveal_strlit("输入要删除的路径: "),
        },
        Msg::PromptClearIncl => match lang {
            Lang::RU => reveal_strlit("Список включённых папок очищен."),
            Lang::EN => reveal_strlit("Included folders list cleared."),
            Lang::ZH => reveal_strlit("包含文件夹列表已清除"),
        },
        Msg::PreviewTitle => match lang {
            Lang::RU => reveal_strlit("ПРЕВЬЮ: будет скопировано {} файлов"),
            Lang::EN => reveal_strlit("PREVIEW: {} files will be copied"),
            Lang::ZH => reveal_strlit("预览: 将复制 {} 个文件"),
        },
        Msg::PreviewNext => match lang {
            Lang::RU => reveal_strlit("Показать следующие 50 [Enter], или Q для выхода"),
            Lang::EN => reveal_strlit("Show next 50 [Enter], or Q to quit"),
            Lang::ZH => reveal_strlit("显示下50个 [回车], 或 Q 退出"),
        },
        Msg::RunCopyPrompt => match lang {
            Lang::RU => reveal_strlit("Выполнить копирование этих файлов? (Y/N): "),
            Lang::EN => reveal_strlit("Run copy for these files? (Y/N): "),
            Lang::ZH => reveal_strlit("复制这些文件吗？(Y/N): "),
        },
        Msg::Yes => match lang {
            Lang::RU => reveal_strlit("Y"),
            Lang::EN => reveal_strlit("Y"),
            Lang::ZH => reveal_strlit("Y"),
        },
        Msg::InvalidChoice => match lang {
            Lang::RU => reveal_strlit("Неверный выбор."),
            Lang::EN => reveal_strlit("Invalid choice."),
            Lang::ZH => reveal_strlit("无效选择"),
        },
        Msg::Utf8Warn => match lang {
            Lang::RU => reveal_strlit("Пропуск (не UTF-8)"),
            Lang::EN => reveal_strlit("Skipping (not UTF-8)"),
            Lang::ZH => reveal_strlit("跳过 (非 UTF-8)"),
        },
        Msg::ResetSuccess => match lang {
            Lang::RU => reveal_strlit("Настройки сброшены."),
            Lang::EN => reveal_strlit("Settings reset."),
            Lang::ZH => reveal_strlit("设置已重置"),
        },
        Msg::SaveSuccess => match lang {
            Lang::RU => reveal_strlit("Настройки сохранены."),
            Lang::EN => reveal_strlit("Settings saved."),
            Lang::ZH => reveal_strlit("设置已保存"),
        },
        Msg::ExitMsg => match lang {
            Lang::RU => reveal_strlit("До свидания!"),
            Lang::EN => reveal_strlit("Goodbye!"),
            Lang::ZH => reveal_strlit("再见!"),
        },
        Msg::StatusOk => match lang {
            Lang::RU => reveal_strlit("[OK]"),
            Lang::EN => reveal_strlit("[OK]"),
            Lang::ZH => reveal_strlit("[OK]"),
        },
        Msg::StatusExcl => match lang {
            Lang::RU => reveal_strlit("[ИСКЛ]"),
            Lang::EN => reveal_strlit("[EXCL]"),
            Lang::ZH => reveal_strlit("[排除]"),
        },
        Msg::StatusSys => match lang {
            Lang::RU => reveal_strlit("[СИСТ]"),
            Lang::EN => reveal_strlit("[SYS]"),
            Lang::ZH => reveal_strlit("[系统]"),
        },
        Msg::StatusExt => match lang {
            Lang::RU => reveal_strlit("[РАСШ]"),
            Lang::EN => reveal_strlit("[EXT]"),
            Lang::ZH => reveal_strlit("[扩展]"),
        },
        Msg::StatusNotIncl => match lang {
            Lang::RU => reveal_strlit("[НЕ ВКЛ]"),
            Lang::EN => reveal_strlit("[NOT INCL]"),
            Lang::ZH => reveal_strlit("[未包含]"),
        },
        Msg::UsageDetails => match lang {
            Lang::RU => reveal_strlit("ИНСТРУКЦИЯ:\nПрограмма собирает код из монорепозитория в один текстовый файл.\nПоддерживаются превью (--preview), исключения (--exclude), выбор конкретных папок (--only-dirs) и настройки конфигурации."),
            Lang::EN => reveal_strlit("INSTRUCTIONS:\nCollects code from monorepo into a single text file.\nSupports preview (--preview), exclusions (--exclude), specific folders (--only-dirs) and config settings."),
            Lang::ZH => reveal_strlit("说明:\n从 monorepo 收集代码到单个文本文件。\n支持预览 (--preview)、排除 (--exclude)、特定文件夹 (--only-dirs) 和配置设置."),
        },
    }
}

/// Every message other than the "yes" answer and the OK mark reads
/// differently in each of the three languages.
pub proof fn law_languages_differ(msg: Msg)
    requires
        msg != Msg::Yes,
        msg != Msg::StatusOk,
    ensures
        tr_text(msg, Lang::RU) != tr_text(msg, Lang::EN),
        tr_text(msg, Lang::EN) != tr_text(msg, Lang::ZH),
        tr_text(msg, Lang::RU) != tr_text(msg, Lang::ZH),
{
    match msg {
        Msg::Footer => {
            reveal_strlit("Сделано в России. Программа создана полностью на языке программирования Rust. Автор программы: М. Мих. Мир");
            reveal_strlit("Made in Russia. The program is created entirely in the Rust programming language. Author: M. Mikh. Mir");
            reveal_strlit("在俄罗斯制造。该程序完全使用 Rust 编程语言创建。作者：M. Mikh. Mir");
            assert("Сделано в России. Программа создана полностью на языке программирования Rust. Автор программы: М. Мих. Мир"@[0] != "Made in Russia. The program is created entirely in the Rust programming language. Author: M. Mikh. Mir"@[0]);
            assert("Made in Russia. The program is created entirely in the Rust programming language. Author: M. Mikh. Mir"@[0] != "在俄罗斯制造。该程序完全使用 Rust 编程语言创建。作者：M. Mikh. Mir"@[0]);
            assert("Сделано в России. Программа создана полностью на языке программирования Rust. Автор программы: М. Мих. Мир"@[0] != "在俄罗斯制造。该程序完全使用 Rust 编程语言创建。作者：M. Mikh. Mir"@[0]);
        },
        Msg::MenuTitle => {
            reveal_strlit("ГЛАВНОЕ МЕНЮ");
            reveal_strlit("MAIN MENU");
            reveal_strlit("主菜单");
            assert("ГЛАВНОЕ МЕНЮ"@[0] != "MAIN MENU"@[0]);
            assert("MAIN MENU"@[0] != "主菜单"@[0]);
            assert("ГЛАВНОЕ МЕНЮ"@[0] != "主菜单"@[0]);
        },
        Msg::M1 => {
            reveal_strlit("Выбрать исходную папку");
            reveal_strlit("Select source folder");
            reveal_strlit("选择源文件夹");
            assert("Выбрать исходную папку"@[0] != "Select source folder"@[0]);
            assert("Select source folder"@[0] != "选择源文件夹"@[0]);
            assert("Выбрать исходную папку"@[0] != "选择源文件夹"@[0]);
        },
        Msg::M2 => {
            reveal_strlit("Выбрать определённые папки");
            reveal_strlit("Select specific folders");
            reveal_strlit("选择特定文件夹");
            assert("Выбрать определённые папки"@[0] != "Select specific folders"@[0]);
            assert("Select specific folders"@[0] != "选择特定文件夹"@[0]);
            assert("Выбрать определённые папки"@[0] != "选择特定文件夹"@[0]);
        },
        Msg::M3 => {
            reveal_strlit("Настроить расширения");
            reveal_strlit("Configure extensions");
            reveal_strlit("配置扩展名");
            assert("Настроить расширения"@[0] != "Configure extensions"@[0]);
            assert("Configure extensions"@[0] != "配置扩展名"@[0]);
            assert("Настроить расширения"@[0] != "配置扩展名"@[0]);
        },
        Msg::M4 => {
            reveal_strlit("Настроить разделитель (0-5)");
            reveal_strlit("Configure separator (0-5)");
            reveal_strlit("配置分隔符 (0-5)");
            assert("Настроить разделитель (0-5)"@[0] != "Configure separator (0-5)"@[0]);
            assert("Configure separator (0-5)"@[0] != "配置分隔符 (0-5)"@[0]);
            assert("Настроить разделитель (0-5)"@[0] != "配置分隔符 (0-5)"@[0]);
        },
        Msg::M5 => {
            reveal_strlit("Игнорировать служебные папки");
            reveal_strlit("Ignore system directories");
            reveal_strlit("忽略系统目录");
            assert("Игнорировать служебные папки"@[0] != "Ignore system directories"@[0]);
            assert("Ignore system directories"@[0] != "忽略系统目录"@[0]);
            assert("Игнорировать служебные папки"@[0] != "忽略系统目录"@[0]);
        },
        Msg::M6 => {
            reveal_strlit("Настроить исключения по путям");
            reveal_strlit("Configure path exclusions");
            reveal_strlit("配置路径排除");
            assert("Настроить исключения по путям"@[0] != "Configure path exclusions"@[0]);
            assert("Configure path exclusions"@[0] != "配置路径排除"@[0]);
            assert("Настроить исключения по путям"@[0] != "配置路径排除"@[0]);
        },
        Msg::M7 => {
            reveal_strlit("Выбрать выходной файл");
            reveal_strlit("Select output file");
            reveal_strlit("选择输出文件");
            assert("Выбрать выходной файл"@[0] != "Select output file"@[0]);
            assert("Select output file"@[0] != "选择输出文件"@[0]);
            assert("Выбрать выходной файл"@[0] != "选择输出文件"@[0]);
        },
        Msg::M8 => {
            reveal_strlit("Запустить копирование");
            reveal_strlit("Run copy");
            reveal_strlit("运行复制");
            assert("Запустить копирование"@[0] != "Run copy"@[0]);
            assert("Run copy"@[0] != "运行复制"@[0]);
            assert("Запустить копирование"@[0] != "运行复制"@[0]);
        },
        Msg::M9 => {
            reveal_strlit("Показать превью списка файлов");
            reveal_strlit("Show file list preview");
            reveal_strlit("显示文件列表预览");
            assert("Показать превью списка файлов"@[0] != "Show file list preview"@[0]);
            assert("Show file list preview"@[0] != "显示文件列表预览"@[0]);
            assert("Показать превью списка файлов"@[0] != "显示文件列表预览"@[0]);
        },
        Msg::M10 => {
            reveal_strlit("Сбросить настройки");
            reveal_strlit("Reset settings");
            reveal_strlit("重置设置");
            assert("Сбросить настройки"@[0] != "Reset settings"@[0]);
            assert("Reset settings"@[0] != "重置设置"@[0]);
            assert("Сбросить настройки"@[0] != "重置设置"@[0]);
        },
        Msg::M11 => {
            reveal_strlit("Сохранить как умолчания");
            reveal_strlit("Save as defaults");
            reveal_strlit("保存为默认");
            assert("Сохранить как умолчания"@[0] != "Save as defaults"@[0]);
            assert("Save as defaults"@[0] != "保存为默认"@[0]);
            assert("Сохранить как умолчания"@[0] != "保存为默认"@[0]);
        },
        Msg::M12 => {
            reveal_strlit("Показать инструкцию");
            reveal_strlit("Show instructions");
            reveal_strlit("显示说明");
            assert("Показать инструкцию"@[0] != "Show instructions"@[0]);
            assert("Show instructions"@[0] != "显示说明"@[0]);
            assert("Показать инструкцию"@[0] != "显示说明"@[0]);
        },
        Msg::M13 => {
            reveal_strlit("Язык интерфейса [Рус] [Eng] [中文]");
            reveal_strlit("Interface language [Рус] [Eng] [中文]");
            reveal_strlit("界面语言 [Рус] [Eng] [中文]");
            assert("Язык интерфейса [Рус] [Eng] [中文]"@[0] != "Interface language [Рус] [Eng] [中文]"@[0]);
            assert("Interface language [Рус] [Eng] [中文]"@[0] != "界面语言 [Рус] [Eng] [中文]"@[0]);
            assert("Язык интерфейса [Рус] [Eng] [中文]"@[0] != "界面语言 [Рус] [Eng] [中文]"@[0]);
        },
        Msg::M14 => {
            reveal_strlit("Выход");
            reveal_strlit("Exit");
            reveal_strlit("退出");
            assert("Выход"@[0] != "Exit"@[0]);
            assert("Exit"@[0] != "退出"@[0]);
            assert("Выход"@[0] != "退出"@[0]);
        },
        Msg::PromptChoice => {
            reveal_strlit("Ваш выбор: ");
            reveal_strlit("Your choice: ");
            reveal_strlit("您的选择: ");
            assert("Ваш выбор: "@[0] != "Your choice: "@[0]);
            assert("Your choice: "@[0] != "您的选择: "@[0]);
            assert("Ваш выбор: "@[0] != "您的选择: "@[0]);
        },
        Msg::PromptSource => {
            reveal_strlit("Введите путь к исходной папке: ");
            reveal_strlit("Enter source folder path: ");
            reveal_strlit("输入源文件夹路径: ");
            assert("Введите путь к исходной папке: "@[0] != "Enter source folder path: "@[0]);
            assert("Enter source folder path: "@[0] != "输入源文件夹路径: "@[0]);
            assert("Введите путь к исходной папке: "@[0] != "输入源文件夹路径: "@[0]);
        },
        Msg::PromptOutput => {
            reveal_strlit("Введите имя выходного файла: ");
            reveal_strlit("Enter output file name: ");
            reveal_strlit("输入输出文件名: ");
            assert("Введите имя выходного файла: "@[0] != "Enter output file name: "@[0]);
            assert("Enter output file name: "@[0] != "输入输出文件名: "@[0]);
            assert("Введите имя выходного файла: "@[0] != "输入输出文件名: "@[0]);
        },
        Msg::CurrentExts => {
            reveal_strlit("1. Добавить\n2. Удалить\n3. Переключить 'Все файлы'");
            reveal_strlit("1. Add\n2. Remove\n3. Toggle 'All files'");
            reveal_strlit("1. 添加\n2. 删除\n3. 切换'所有文件'");
            assert("1. Добавить\n2. Удалить\n3. Переключить 'Все файлы'"@[3] != "1. Add\n2. Remove\n3. Toggle 'All files'"@[3]);
            assert("1. Add\n2. Remove\n3. Toggle 'All files'"@[3] != "1. 添加\n2. 删除\n3. 切换'所有文件'"@[3]);
            assert("1. Добавить\n2. Удалить\n3. Переключить 'Все файлы'"@[3] != "1. 添加\n2. 删除\n3. 切换'所有文件'"@[3]);
        },
        Msg::PromptAddExt => {
            reveal_strlit("Введите расширение (напр. .md): ");
            reveal_strlit("Enter extension (e.g. .md): ");
            reveal_strlit("输入扩展名 (例如 .md): ");
            assert("Введите расширение (напр. .md): "@[0] != "Enter extension (e.g. .md): "@[0]);
            assert("Enter extension (e.g. .md): "@[0] != "输入扩展名 (例如 .md): "@[0]);
            assert("Введите расширение (напр. .md): "@[0] != "输入扩展名 (例如 .md): "@[0]);
        },
        Msg::PromptRemExt => {
            reveal_strlit("Введите расширение для удаления: ");
            reveal_strlit("Enter extension to remove: ");
            reveal_strlit("输入要删除的扩展名: ");
            assert("Введите расширение для удаления: "@[0] != "Enter extension to remove: "@[0]);
            assert("Enter extension to remove: "@[0] != "输入要删除的扩展名: "@[0]);
            assert("Введите расширение для удаления: "@[0] != "输入要删除的扩展名: "@[0]);
        },
        Msg::UseAllFiles => {
            reveal_strlit("Режим 'Все файлы' переключен.");
            reveal_strlit("Toggled 'All files' mode.");
            reveal_strlit("已切换'所有文件'模式");
            assert("Режим 'Все файлы' переключен."@[0] != "Toggled 'All files' mode."@[0]);
            assert("Toggled 'All files' mode."@[0] != "已切换'所有文件'模式"@[0]);
            assert("Режим 'Все файлы' переключен."@[0] != "已切换'所有文件'模式"@[0]);
        },
        Msg::CurrentSep => {
            reveal_strlit("Текущий разделитель: ");
            reveal_strlit("Current separator: ");
            reveal_strlit("当前分隔符: ");
            assert("Текущий разделитель: "@[0] != "Current separator: "@[0]);
            assert("Current separator: "@[0] != "当前分隔符: "@[0]);
            assert("Текущий разделитель: "@[0] != "当前分隔符: "@[0]);
        },
        Msg::PromptSep => {
            reveal_strlit("Введите число пустых строк (0-5): ");
            reveal_strlit("Enter number of empty lines (0-5): ");
            reveal_strlit("输入空行数 (0-5): ");
            assert("Введите число пустых строк (0-5): "@[0] != "Enter number of empty lines (0-5): "@[0]);
            assert("Enter number of empty lines (0-5): "@[0] != "输入空行数 (0-5): "@[0]);
            assert("Введите число пустых строк (0-5): "@[0] != "输入空行数 (0-5): "@[0]);
        },
        Msg::CurrentExcl => {
            reveal_strlit("1. Добавить\n2. Удалить\n3. Очистить все");
            reveal_strlit("1. Add\n2. Remove\n3. Clear all");
            reveal_strlit("1. 添加\n2. 删除\n3. 清除所有");
            assert("1. Добавить\n2. Удалить\n3. Очистить все"@[3] != "1. Add\n2. Remove\n3. Clear all"@[3]);
            assert("1. Add\n2. Remove\n3. Clear all"@[3] != "1. 添加\n2. 删除\n3. 清除所有"@[3]);
            assert("1. Добавить\n2. Удалить\n3. Очистить все"@[3] != "1. 添加\n2. 删除\n3. 清除所有"@[3]);
        },
        Msg::PromptAddExcl => {
            reveal_strlit("Введите путь для исключения: ");
            reveal_strlit("Enter path to exclude: ");
            reveal_strlit("输入要排除的路径: ");
            assert("Введите путь для исключения: "@[0] != "Enter path to exclude: "@[0]);
            assert("Enter path to exclude: "@[0] != "输入要排除的路径: "@[0]);
            assert("Введите путь для исключения: "@[0] != "输入要排除的路径: "@[0]);
        },
        Msg::PromptRemExcl => {
            reveal_strlit("Введите путь для удаления: ");
            reveal_strlit("Enter path to remove: ");
            reveal_strlit("输入要删除的路径: ");
            assert("Введите путь для удаления: "@[0] != "Enter path to remove: "@[0]);
            assert("Enter path to remove: "@[0] != "输入要删除的路径: "@[0]);
            assert("Введите путь для удаления: "@[0] != "输入要删除的路径: "@[0]);
        },
        Msg::PromptClearExcl => {
            reveal_strlit("Список исключений очищен.");
            reveal_strlit("Exclusion list cleared.");
            reveal_strlit("排除列表已清除");
            assert("Список исключений очищен."@[0] != "Exclusion list cleared."@[0]);
            assert("Exclusion list cleared."@[0] != "排除列表已清除"@[0]);
            assert("Список исключений очищен."@[0] != "排除列表已清除"@[0]);
        },
        Msg::CurrentIncl => {
            reveal_strlit("1. Добавить\n2. Удалить\n3. Очистить все");
            reveal_strlit("1. Add\n2. Remove\n3. Clear all");
            reveal_strlit("1. 添加\n2. 删除\n3. 清除所有");
            assert("1. Добавить\n2. Удалить\n3. Очистить все"@[3] != "1. Add\n2. Remove\n3. Clear all"@[3]);
            assert("1. Add\n2. Remove\n3. Clear all"@[3] != "1. 添加\n2. 删除\n3. 清除所有"@[3]);
            assert("1. Добавить\n2. Удалить\n3. Очистить все"@[3] != "1. 添加\n2. 删除\n3. 清除所有"@[3]);
        },
        Msg::PromptAddIncl => {
            reveal_strlit("Введите путь к папке для включения: ");
            reveal_strlit("Enter folder path to include: ");
            reveal_strlit("输入要包含的文件夹路径: ");
            assert("Введите путь к папке для включения: "@[0] != "Enter folder path to include: "@[0]);
            assert("Enter folder path to include: "@[0] != "输入要包含的文件夹路径: "@[0]);
            assert("Введите путь к папке для включения: "@[0] != "输入要包含的文件夹路径: "@[0]);
        },
        Msg::PromptRemIncl => {
            reveal_strlit("Введите путь для удаления: ");
            reveal_strlit("Enter path to remove: ");
            reveal_strlit("输入要删除的路径: ");
            assert("Введите путь для удаления: "@[0] != "Enter path to remove: "@[0]);
            assert("Enter path to remove: "@[0] != "输入要删除的路径: "@[0]);
            assert("Введите путь для удаления: "@[0] != "输入要删除的路径: "@[0]);
        },
        Msg::PromptClearIncl => {
            reveal_strlit("Список включённых папок очищен.");
            reveal_strlit("Included folders list cleared.");
            reveal_strlit("包含文件夹列表已清除");
            assert("Список включённых папок очищен."@[0] != "Included folders list cleared."@[0]);
            assert("Included folders list cleared."@[0] != "包含文件夹列表已清除"@[0]);
            assert("Список включённых папок очищен."@[0] != "包含文件夹列表已清除"@[0]);
        },
        Msg::PreviewTitle => {
            reveal_strlit("ПРЕВЬЮ: будет скопировано {} файлов");
            reveal_strlit("PREVIEW: {} files will be copied");
            reveal_strlit("预览: 将复制 {} 个文件");
            assert("ПРЕВЬЮ: будет скопировано {} файлов"@[0] != "PREVIEW: {} files will be copied"@[0]);
            assert("PREVIEW: {} files will be copied"@[0] != "预览: 将复制 {} 个文件"@[0]);
            assert("ПРЕВЬЮ: будет скопировано {} файлов"@[0] != "预览: 将复制 {} 个文件"@[0]);
        },
        Msg::PreviewNext => {
            reveal_strlit("Показать следующие 50 [Enter], или Q для выхода");
            reveal_strlit("Show next 50 [Enter], or Q to quit");
            reveal_strlit("显示下50个 [回车], 或 Q 退出");
            assert("Показать следующие 50 [Enter], или Q для выхода"@[0] != "Show next 50 [Enter], or Q to quit"@[0]);
            assert("Show next 50 [Enter], or Q to quit"@[0] != "显示下50个 [回车], 或 Q 退出"@[0]);
            assert("Показать следующие 50 [Enter], или Q для выхода"@[0] != "显示下50个 [回车], 或 Q 退出"@[0]);
        },
        Msg::RunCopyPrompt => {
            reveal_strlit("Выполнить копирование этих файлов? (Y/N): ");
            reveal_strlit("Run copy for these files? (Y/N): ");
            reveal_strlit("复制这些文件吗？(Y/N): ");
            assert("Выполнить копирование этих файлов? (Y/N): "@[0] != "Run copy for these files? (Y/N): "@[0]);
            assert("Run copy for these files? (Y/N): "@[0] != "复制这些文件吗？(Y/N): "@[0]);
            assert("Выполнить копирование этих файлов? (Y/N): "@[0] != "复制这些文件吗？(Y/N): "@[0]);
        },
        Msg::Yes => {},
        Msg::InvalidChoice => {
            reveal_strlit("Неверный выбор.");
            reveal_strlit("Invalid choice.");
            reveal_strlit("无效选择");
            assert("Неверный выбор."@[0] != "Invalid choice."@[0]);
            assert("Invalid choice."@[0] != "无效选择"@[0]);
            assert("Неверный выбор."@[0] != "无效选择"@[0]);
        },
        Msg::Utf8Warn => {
            reveal_strlit("Пропуск (не UTF-8)");
            reveal_strlit("Skipping (not UTF-8)");
            reveal_strlit("跳过 (非 UTF-8)");
            assert("Пропуск (не UTF-8)"@[0] != "Skipping (not UTF-8)"@[0]);
            assert("Skipping (not UTF-8)"@[0] != "跳过 (非 UTF-8)"@[0]);
            assert("Пропуск (не UTF-8)"@[0] != "跳过 (非 UTF-8)"@[0]);
        },
        Msg::ResetSuccess => {
            reveal_strlit("Настройки сброшены.");
            reveal_strlit("Settings reset.");
            reveal_strlit("设置已重置");
            assert("Настройки сброшены."@[0] != "Settings reset."@[0]);
            assert("Settings reset."@[0] != "设置已重置"@[0]);
            assert("Настройки сброшены."@[0] != "设置已重置"@[0]);
        },
        Msg::SaveSuccess => {
            reveal_strlit("Настройки сохранены.");
            reveal_strlit("Settings saved.");
            reveal_strlit("设置已保存");
            assert("Настройки сохранены."@[0] != "Settings saved."@[0]);
            assert("Settings saved."@[0] != "设置已保存"@[0]);
            assert("Настройки сохранены."@[0] != "设置已保存"@[0]);
        },
        Msg::ExitMsg => {
            reveal_strlit("До свидания!");
            reveal_strlit("Goodbye!");
            reveal_strlit("再见!");
            assert("До свидания!"@[0] != "Goodbye!"@[0]);
            assert("Goodbye!"@[0] != "再见!"@[0]);
            assert("До свидания!"@[0] != "再见!"@[0]);
        },
        Msg::StatusOk => {},
        Msg::StatusExcl => {
            reveal_strlit("[ИСКЛ]");
            reveal_strlit("[EXCL]");
            reveal_strlit("[排除]");
            assert("[ИСКЛ]"@[1] != "[EXCL]"@[1]);
            assert("[EXCL]"@[1] != "[排除]"@[1]);
            assert("[ИСКЛ]"@[1] != "[排除]"@[1]);
        },
        Msg::StatusSys => {
            reveal_strlit("[СИСТ]");
            reveal_strlit("[SYS]");
            reveal_strlit("[系统]");
            assert("[СИСТ]"@[1] != "[SYS]"@[1]);
            assert("[SYS]"@[1] != "[系统]"@[1]);
            assert("[СИСТ]"@[1] != "[系统]"@[1]);
        },
        Msg::StatusExt => {
            reveal_strlit("[РАСШ]");
            reveal_strlit("[EXT]");
            reveal_strlit("[扩展]");
            assert("[РАСШ]"@[1] != "[EXT]"@[1]);
            assert("[EXT]"@[1] != "[扩展]"@[1]);
            assert("[РАСШ]"@[1] != "[扩展]"@[1]);
        },
        Msg::StatusNotIncl => {
            reveal_strlit("[НЕ ВКЛ]");
            reveal_strlit("[NOT INCL]");
            reveal_strlit("[未包含]");
            assert("[НЕ ВКЛ]"@[1] != "[NOT INCL]"@[1]);
            assert("[NOT INCL]"@[1] != "[未包含]"@[1]);
            assert("[НЕ ВКЛ]"@[1] != "[未包含]"@[1]);
        },
        Msg::UsageDetails => {
            reveal_strlit("ИНСТРУКЦИЯ:\nПрограмма собирает код из монорепозитория в один текстовый файл.\nПоддерживаются превью (--preview), исключения (--exclude), выбор конкретных папок (--only-dirs) и настройки конфигурации.");
            reveal_strlit("INSTRUCTIONS:\nCollects code from monorepo into a single text file.\nSupports preview (--preview), exclusions (--exclude), specific folders (--only-dirs) and config settings.");
            reveal_strlit("说明:\n从 monorepo 收集代码到单个文本文件。\n支持预览 (--preview)、排除 (--exclude)、特定文件夹 (--only-dirs) 和配置设置.");
            assert("ИНСТРУКЦИЯ:\nПрограмма собирает код из монорепозитория в один текстовый файл.\nПоддерживаются превью (--preview), исключения (--exclude), выбор конкретных папок (--only-dirs) и настройки конфигурации."@[0] != "INSTRUCTIONS:\nCollects code from monorepo into a single text file.\nSupports preview (--preview), exclusions (--exclude), specific folders (--only-dirs) and config settings."@[0]);
            assert("INSTRUCTIONS:\nCollects code from monorepo into a single text file.\nSupports preview (--preview), exclusions (--exclude), specific folders (--only-dirs) and config settings."@[0] != "说明:\n从 monorepo 收集代码到单个文本文件。\n支持预览 (--preview)、排除 (--exclude)、特定文件夹 (--only-dirs) 和配置设置."@[0]);
            assert("ИНСТРУКЦИЯ:\nПрограмма собирает код из монорепозитория в один текстовый файл.\nПоддерживаются превью (--preview), исключения (--exclude), выбор конкретных папок (--only-dirs) и настройки конфигурации."@[0] != "说明:\n从 monorepo 收集代码到单个文本文件。\n支持预览 (--preview)、排除 (--exclude)、特定文件夹 (--only-dirs) 和配置设置."@[0]);
        },
    }
}

/// The marks that the preview shows after an entry, in order: collected,
/// excluded, system directory, extension, not included.
pub open spec fn status_marks(lang: Lang) -> Seq<Seq<char>> {
    seq![
        tr_text(Msg::StatusOk, lang),
        tr_text(Msg::StatusExcl, lang),
        tr_text(Msg::StatusSys, lang),
        tr_text(Msg::StatusExt, lang),
        tr_text(Msg::StatusNotIncl, lang),
    ]
}

/// The labels of the fourteen menu items, in order.
pub open spec fn menu_labels(lang: Lang) -> Seq<Seq<char>> {
    seq![
        tr_text(Msg::M1, lang),
        tr_text(Msg::M2, lang),
        tr_text(Msg::M3, lang),
        tr_text(Msg::M4, lang),
        tr_text(Msg::M5, lang),
        tr_text(Msg::M6, lang),
        tr_text(Msg::M7, lang),
        tr_text(Msg::M8, lang),
        tr_text(Msg::M9, lang),
        tr_text(Msg::M10, lang),
        tr_text(Msg::M11, lang),
        tr_text(Msg::M12, lang),
        tr_text(Msg::M13, lang),
        tr_text(Msg::M14, lang),
    ]
}

/// In every language the five status marks differ from one another, and
/// each is written in square brackets.
pub proof fn law_status_marks(lang: Lang)
    ensures
        forall|i: int, j: int|
            0 <= i < j < status_marks(lang).len() ==> status_marks(lang)[i] != status_marks(lang)[j],
        forall|i: int|
            0 <= i < status_marks(lang).len() ==> status_marks(lang)[i].len() > 1
                && status_marks(lang)[i][0] == '[' && status_marks(lang)[i].last() == ']',
{
    match lang {
        Lang::RU => {
            reveal_strlit("[OK]");
            reveal_strlit("[ИСКЛ]");
            reveal_strlit("[СИСТ]");
            reveal_strlit("[РАСШ]");
            reveal_strlit("[НЕ ВКЛ]");
            assert("[OK]"@[1] != "[ИСКЛ]"@[1]);
            assert("[OK]"@[1] != "[СИСТ]"@[1]);
            assert("[OK]"@[1] != "[РАСШ]"@[1]);
            assert("[OK]"@[1] != "[НЕ ВКЛ]"@[1]);
            assert("[ИСКЛ]"@[1] != "[СИСТ]"@[1]);
            assert("[ИСКЛ]"@[1] != "[РАСШ]"@[1]);
            assert("[ИСКЛ]"@[1] != "[НЕ ВКЛ]"@[1]);
            assert("[СИСТ]"@[1] != "[РАСШ]"@[1]);
            assert("[СИСТ]"@[1] != "[НЕ ВКЛ]"@[1]);
            assert("[РАСШ]"@[1] != "[НЕ ВКЛ]"@[1]);
        },
        Lang::EN => {
            reveal_strlit("[OK]");
            reveal_strlit("[EXCL]");
            reveal_strlit("[SYS]");
            reveal_strlit("[EXT]");
            reveal_strlit("[NOT INCL]");
            assert("[OK]"@[1] != "[EXCL]"@[1]);
            assert("[OK]"@[1] != "[SYS]"@[1]);
            assert("[OK]"@[1] != "[EXT]"@[1]);
            assert("[OK]"@[1] != "[NOT INCL]"@[1]);
            assert("[EXCL]"@[1] != "[SYS]"@[1]);
            assert("[EXCL]"@[3] != "[EXT]"@[3]);
            assert("[EXCL]"@[1] != "[NOT INCL]"@[1]);
            assert("[SYS]"@[1] != "[EXT]"@[1]);
            assert("[SYS]"@[1] != "[NOT INCL]"@[1]);
            assert("[EXT]"@[1] != "[NOT INCL]"@[1]);
        },
        Lang::ZH => {
            reveal_strlit("[OK]");
            reveal_strlit("[排除]");
            reveal_strlit("[系统]");
            reveal_strlit("[扩展]");
            reveal_strlit("[未包含]");
            assert("[OK]"@[1] != "[排除]"@[1]);
            assert("[OK]"@[1] != "[系统]"@[1]);
            assert("[OK]"@[1] != "[扩展]"@[1]);
            assert("[OK]"@[1] != "[未包含]"@[1]);
            assert("[排除]"@[1] != "[系统]"@[1]);
            assert("[排除]"@[1] != "[扩展]"@[1]);
            assert("[排除]"@[1] != "[未包含]"@[1]);
            assert("[系统]"@[1] != "[扩展]"@[1]);
            assert("[系统]"@[1] != "[未包含]"@[1]);
            assert("[扩展]"@[1] != "[未包含]"@[1]);
        },
    }
    let s = status_marks(lang);
    assert forall|i: int, j: int| 0 <= i < j < s.len() implies s[i] != s[j] by {
        assert(i == 0 || i == 1 || i == 2 || i == 3 || i == 4);
        assert(j == 0 || j == 1 || j == 2 || j == 3 || j == 4);
    }
    assert forall|i: int| 0 <= i < s.len() implies s[i].len() > 1 && s[i][0] == '[' && s[i].last()
        == ']' by {
        assert(i == 0 || i == 1 || i == 2 || i == 3 || i == 4);
    }
}

/// In every language the fourteen menu labels differ from one another.
pub proof fn law_menu_labels_distinct(lang: Lang)
    ensures
        forall|i: int, j: int|
            0 <= i < j < menu_labels(lang).len() ==> menu_labels(lang)[i] != menu_labels(lang)[j],
{
    match lang {
        Lang::RU => {
            reveal_strlit("Выбрать исходную папку");
            reveal_strlit("Выбрать определённые папки");
            reveal_strlit("Настроить расширения");
            reveal_strlit("Настроить разделитель (0-5)");
            reveal_strlit("Игнорировать служебные папки");
            reveal_strlit("Настроить исключения по путям");
            reveal_strlit("Выбрать выходной файл");
            reveal_strlit("Запустить копирование");
            reveal_strlit("Показать превью списка файлов");
            reveal_strlit("Сбросить настройки");
            reveal_strlit("Сохранить как умолчания");
            reveal_strlit("Показать инструкцию");
            reveal_strlit("Язык интерфейса [Рус] [Eng] [中文]");
            reveal_strlit("Выход");
            assert("Выбрать исходную папку"@[8] != "Выбрать определённые папки"@[8]);
            assert("Выбрать исходную папку"@[0] != "Настроить расширения"@[0]);
            assert("Выбрать исходную папку"@[0] != "Настроить разделитель (0-5)"@[0]);
            assert("Выбрать исходную папку"@[0] != "Игнорировать служебные папки"@[0]);
            assert("Выбрать исходную папку"@[0] != "Настроить исключения по путям"@[0]);
            assert("Выбрать исходную папку"@[8] != "Выбрать выходной файл"@[8]);
            assert("Выбрать исходную папку"@[0] != "Запустить копирование"@[0]);
            assert("Выбрать исходную папку"@[0] != "Показать превью списка файлов"@[0]);
            assert("Выбрать исходную папку"@[0] != "Сбросить настройки"@[0]);
            assert("Выбрать исходную папку"@[0] != "Сохранить как умолчания"@[0]);
            assert("Выбрать исходную папку"@[0] != "Показать инструкцию"@[0]);
            assert("Выбрать исходную папку"@[0] != "Язык интерфейса [Рус] [Eng] [中文]"@[0]);
            assert("Выбрать исходную папку"@[2] != "Выход"@[2]);
            assert("Выбрать определённые папки"@[0] != "Настроить расширения"@[0]);
            assert("Выбрать определённые папки"@[0] != "Настроить разделитель (0-5)"@[0]);
            assert("Выбрать определённые папки"@[0] != "Игнорировать служебные папки"@[0]);
            assert("Выбрать определённые папки"@[0] != "Настроить исключения по путям"@[0]);
            assert("Выбрать определённые папки"@[8] != "Выбрать выходной файл"@[8]);
            assert("Выбрать определённые папки"@[0] != "Запустить копирование"@[0]);
            assert("Выбрать определённые папки"@[0] != "Показать превью списка файлов"@[0]);
            assert("Выбрать определённые папки"@[0] != "Сбросить настройки"@[0]);
            assert("Выбрать определённые папки"@[0] != "Сохранить как умолчания"@[0]);
            assert("Выбрать определённые папки"@[0] != "Показать инструкцию"@[0]);
            assert("Выбрать определённые папки"@[0] != "Язык интерфейса [Рус] [Eng] [中文]"@[0]);
            assert("Выбрать определённые папки"@[2] != "Выход"@[2]);
            assert("Настроить расширения"@[12] != "Настроить разделитель (0-5)"@[12]);
            assert("Настроить расширения"@[0] != "Игнорировать служебные папки"@[0]);
            assert("Настроить расширения"@[10] != "Настроить исключения по путям"@[10]);
            assert("Настроить расширения"@[0] != "Выбрать выходной файл"@[0]);
            assert("Настроить расширения"@[0] != "Запустить копирование"@[0]);
            assert("Настроить расширения"@[0] != "Показать превью списка файлов"@[0]);
            assert("Настроить расширения"@[0] != "Сбросить настройки"@[0]);
            assert("Настроить расширения"@[0] != "Сохранить как умолчания"@[0]);
            assert("Настроить расширения"@[0] != "Показать инструкцию"@[0]);
            assert("Настроить расширения"@[0] != "Язык интерфейса [Рус] [Eng] [中文]"@[0]);
            assert("Настроить расширения"@[0] != "Выход"@[0]);
            assert("Настроить разделитель (0-5)"@[0] != "Игнорировать служебные папки"@[0]);
            assert("Настроить разделитель (0-5)"@[10] != "Настроить исключения по путям"@[10]);
            assert("Настроить разделитель (0-5)"@[0] != "Выбрать выходной файл"@[0]);
            assert("Настроить разделитель (0-5)"@[0] != "Запустить копирование"@[0]);
            assert("Настроить разделитель (0-5)"@[0] != "Показать превью списка файлов"@[0]);
            assert("Настроить разделитель (0-5)"@[0] != "Сбросить настройки"@[0]);
            assert("Настроить разделитель (0-5)"@[0] != "Сохранить как умолчания"@[0]);
            assert("Настроить разделитель (0-5)"@[0] != "Показать инструкцию"@[0]);
            assert("Настроить разделитель (0-5)"@[0] != "Язык интерфейса [Рус] [Eng] [中文]"@[0]);
            assert("Настроить разделитель (0-5)"@[0] != "Выход"@[0]);
            assert("Игнорировать служебные папки"@[0] != "Настроить исключения по путям"@[0]);
            assert("Игнорировать служебные папки"@[0] != "Выбрать выходной файл"@[0]);
            assert("Игнорировать служебные папки"@[0] != "Запустить копирование"@[0]);
            assert("Игнорировать служебные папки"@[0] != "Показать превью списка файлов"@[0]);
            assert("Игнорировать служебные папки"@[0] != "Сбросить настройки"@[0]);
            assert("Игнорировать служебные папки"@[0] != "Сохранить как умолчания"@[0]);
            assert("Игнорировать служебные папки"@[0] != "Показать инструкцию"@[0]);
            assert("Игнорировать служебные папки"@[0] != "Язык интерфейса [Рус] [Eng] [中文]"@[0]);
            assert("Игнорировать служебные папки"@[0] != "Выход"@[0]);
            assert("Настроить исключения по путям"@[0] != "Выбрать выходной файл"@[0]);
            assert("Настроить исключения по путям"@[0] != "Запустить копирование"@[0]);
            assert("Настроить исключения по путям"@[0] != "Показать превью списка файлов"@[0]);
            assert("Настроить исключения по путям"@[0] != "Сбросить настройки"@[0]);
            assert("Настроить исключения по путям"@[0] != "Сохранить как умолчания"@[0]);
            assert("Настроить исключения по путям"@[0] != "Показать инструкцию"@[0]);
            assert("Настроить исключения по путям"@[0] != "Язык интерфейса [Рус] [Eng] [中文]"@[0]);
            assert("Настроить исключения по путям"@[0] != "Выход"@[0]);
            assert("Выбрать выходной файл"@[0] != "Запустить копирование"@[0]);
            assert("Выбрать выходной файл"@[0] != "Показать превью списка файлов"@[0]);
            assert("Выбрать выходной файл"@[0] != "Сбросить настройки"@[0]);
            assert("Выбрать выходной файл"@[0] != "Сохранить как умолчания"@[0]);
            assert("Выбрать выходной файл"@[0] != "Показать инструкцию"@[0]);
            assert("Выбрать выходной файл"@[0] != "Язык интерфейса [Рус] [Eng] [中文]"@[0]);
            assert("Выбрать выходной файл"@[2] != "Выход"@[2]);
            assert("Запустить копирование"@[0] != "Показать превью списка файлов"@[0]);
            assert("Запустить копирование"@[0] != "Сбросить настройки"@[0]);
            assert("Запустить копирование"@[0] != "Сохранить как умолчания"@[0]);
            assert("Запустить копирование"@[0] != "Показать инструкцию"@[0]);
            assert("Запустить копирование"@[0] != "Язык интерфейса [Рус] [Eng] [中文]"@[0]);
            assert("Запустить копирование"@[0] != "Выход"@[0]);
            assert("Показать превью списка файлов"@[0] != "Сбросить настройки"@[0]);
            assert("Показать превью списка файлов"@[0] != "Сохранить как умолчания"@[0]);
            assert("Показать превью списка файлов"@[9] != "Показать инструкцию"@[9]);
            assert("Показать превью списка файлов"@[0] != "Язык интерфейса [Рус] [Eng] [中文]"@[0]);
            assert("Показать превью списка файлов"@[0] != "Выход"@[0]);
            assert("Сбросить настройки"@[1] != "Сохранить как умолчания"@[1]);
            assert("Сбросить настройки"@[0] != "Показать инструкцию"@[0]);
            assert("Сбросить настройки"@[0] != "Язык интерфейса [Рус] [Eng] [中文]"@[0]);
            assert("Сбросить настройки"@[0] != "Выход"@[0]);
            assert("Сохранить как умолчания"@[0] != "Показать инструкцию"@[0]);
            assert("Сохранить как умолчания"@[0] != "Язык интерфейса [Рус] [Eng] [中文]"@[0]);
            assert("Сохранить как умолчания"@[0] != "Выход"@[0]);
            assert("Показать инструкцию"@[0] != "Язык интерфейса [Рус] [Eng] [中文]"@[0]);
            assert("Показать инструкцию"@[0] != "Выход"@[0]);
            assert("Язык интерфейса [Рус] [Eng] [中文]"@[0] != "Выход"@[0]);
        },
        Lang::EN => {
            reveal_strlit("Select source folder");
            reveal_strlit("Select specific folders");
            reveal_strlit("Configure extensions");
            reveal_strlit("Configure separator (0-5)");
            reveal_strlit("Ignore system directories");
            reveal_strlit("Configure path exclusions");
            reveal_strlit("Select output file");
            reveal_strlit("Run copy");
            reveal_strlit("Show file list preview");
            reveal_strlit("Reset settings");
            reveal_strlit("Save as defaults");
            reveal_strlit("Show instructions");
            reveal_strlit("Interface language [Рус] [Eng] [中文]");
            reveal_strlit("Exit");
            assert("Select source folder"@[8] != "Select specific folders"@[8]);
            assert("Select source folder"@[0] != "Configure extensions"@[0]);
            assert("Select source folder"@[0] != "Configure separator (0-5)"@[0]);
            assert("Select source folder"@[0] != "Ignore system directories"@[0]);
            assert("Select source folder"@[0] != "Configure path exclusions"@[0]);
            assert("Select source folder"@[7] != "Select output file"@[7]);
            assert("Select source folder"@[0] != "Run copy"@[0]);
            assert("Select source folder"@[1] != "Show file list preview"@[1]);
            assert("Select source folder"@[0] != "Reset settings"@[0]);
            assert("Select source folder"@[1] != "Save as defaults"@[1]);
            assert("Select source folder"@[1] != "Show instructions"@[1]);
            assert("Select source folder"@[0] != "Interface language [Рус] [Eng] [中文]"@[0]);
            assert("Select source folder"@[0] != "Exit"@[0]);
            assert("Select specific folders"@[0] != "Configure extensions"@[0]);
            assert("Select specific folders"@[0] != "Configure separator (0-5)"@[0]);
            assert("Select specific folders"@[0] != "Ignore system directories"@[0]);
            assert("Select specific folders"@[0] != "Configure path exclusions"@[0]);
            assert("Select specific folders"@[7] != "Select output file"@[7]);
            assert("Select specific folders"@[0] != "Run copy"@[0]);
            assert("Select specific folders"@[1] != "Show file list preview"@[1]);
            assert("Select specific folders"@[0] != "Reset settings"@[0]);
            assert("Select specific folders"@[1] != "Save as defaults"@[1]);
            assert("Select specific folders"@[1] != "Show instructions"@[1]);
            assert("Select specific folders"@[0] != "Interface language [Рус] [Eng] [中文]"@[0]);
            assert("Select specific folders"@[0] != "Exit"@[0]);
            assert("Configure extensions"@[10] != "Configure separator (0-5)"@[10]);
            assert("Configure extensions"@[0] != "Ignore system directories"@[0]);
            assert("Configure extensions"@[10] != "Configure path exclusions"@[10]);
            assert("Configure extensions"@[0] != "Select output file"@[0]);
            assert("Configure extensions"@[0] != "Run copy"@[0]);
            assert("Configure extensions"@[0] != "Show file list preview"@[0]);
            assert("Configure extensions"@[0] != "Reset settings"@[0]);
            assert("Configure extensions"@[0] != "Save as defaults"@[0]);
            assert("Configure extensions"@[0] != "Show instructions"@[0]);
            assert("Configure extensions"@[0] != "Interface language [Рус] [Eng] [中文]"@[0]);
            assert("Configure extensions"@[0] != "Exit"@[0]);
            assert("Configure separator (0-5)"@[0] != "Ignore system directories"@[0]);
            assert("Configure separator (0-5)"@[10] != "Configure path exclusions"@[10]);
            assert("Configure separator (0-5)"@[0] != "Select output file"@[0]);
            assert("Configure separator (0-5)"@[0] != "Run copy"@[0]);
            assert("Configure separator (0-5)"@[0] != "Show file list preview"@[0]);
            assert("Configure separator (0-5)"@[0] != "Reset settings"@[0]);
            assert("Configure separator (0-5)"@[0] != "Save as defaults"@[0]);
            assert("Configure separator (0-5)"@[0] != "Show instructions"@[0]);
            assert("Configure separator (0-5)"@[0] != "Interface language [Рус] [Eng] [中文]"@[0]);
            assert("Configure separator (0-5)"@[0] != "Exit"@[0]);
            assert("Ignore system directories"@[0] != "Configure path exclusions"@[0]);
            assert("Ignore system directories"@[0] != "Select output file"@[0]);
            assert("Ignore system directories"@[0] != "Run copy"@[0]);
            assert("Ignore system directories"@[0] != "Show file list preview"@[0]);
            assert("Ignore system directories"@[0] != "Reset settings"@[0]);
            assert("Ignore system directories"@[0] != "Save as defaults"@[0]);
            assert("Ignore system directories"@[0] != "Show instructions"@[0]);
            assert("Ignore system directories"@[1] != "Interface language [Рус] [Eng] [中文]"@[1]);
            assert("Ignore system directories"@[0] != "Exit"@[0]);
            assert("Configure path exclusions"@[0] != "Select output file"@[0]);
            assert("Configure path exclusions"@[0] != "Run copy"@[0]);
            assert("Configure path exclusions"@[0] != "Show file list preview"@[0]);
            assert("Configure path exclusions"@[0] != "Reset settings"@[0]);
            assert("Configure path exclusions"@[0] != "Save as defaults"@[0]);
            assert("Configure path exclusions"@[0] != "Show instructions"@[0]);
            assert("Configure path exclusions"@[0] != "Interface language [Рус] [Eng] [中文]"@[0]);
            assert("Configure path exclusions"@[0] != "Exit"@[0]);
            assert("Select output file"@[0] != "Run copy"@[0]);
            assert("Select output file"@[1] != "Show file list preview"@[1]);
            assert("Select output file"@[0] != "Reset settings"@[0]);
            assert("Select output file"@[1] != "Save as defaults"@[1]);
            assert("Select output file"@[1] != "Show instructions"@[1]);
            assert("Select output file"@[0] != "Interface language [Рус] [Eng] [中文]"@[0]);
            assert("Select output file"@[0] != "Exit"@[0]);
            assert("Run copy"@[0] != "Show file list preview"@[0]);
            assert("Run copy"@[1] != "Reset settings"@[1]);
            assert("Run copy"@[0] != "Save as defaults"@[0]);
            assert("Run copy"@[0] != "Show instructions"@[0]);
            assert("Run copy"@[0] != "Interface language [Рус] [Eng] [中文]"@[0]);
            assert("Run copy"@[0] != "Exit"@[0]);
            assert("Show file list preview"@[0] != "Reset settings"@[0]);
            assert("Show file list preview"@[1] != "Save as defaults"@[1]);
            assert("Show file list preview"@[5] != "Show instructions"@[5]);
            assert("Show file list preview"@[0] != "Interface language [Рус] [Eng] [中文]"@[0]);
            assert("Show file list preview"@[0] != "Exit"@[0]);
            assert("Reset settings"@[0] != "Save as defaults"@[0]);
            assert("Reset settings"@[0] != "Show instructions"@[0]);
            assert("Reset settings"@[0] != "Interface language [Рус] [Eng] [中文]"@[0]);
            assert("Reset settings"@[0] != "Exit"@[0]);
            assert("Save as defaults"@[1] != "Show instructions"@[1]);
            assert("Save as defaults"@[0] != "Interface language [Рус] [Eng] [中文]"@[0]);
            assert("Save as defaults"@[0] != "Exit"@[0]);
            assert("Show instructions"@[0] != "Interface language [Рус] [Eng] [中文]"@[0]);
            assert("Show instructions"@[0] != "Exit"@[0]);
            assert("Interface language [Рус] [Eng] [中文]"@[0] != "Exit"@[0]);
        },
        Lang::ZH => {
            reveal_strlit("选择源文件夹");
            reveal_strlit("选择特定文件夹");
            reveal_strlit("配置扩展名");
            reveal_strlit("配置分隔符 (0-5)");
            reveal_strlit("忽略系统目录");
            reveal_strlit("配置路径排除");
            reveal_strlit("选择输出文件");
            reveal_strlit("运行复制");
            reveal_strlit("显示文件列表预览");
            reveal_strlit("重置设置");
            reveal_strlit("保存为默认");
            reveal_strlit("显示说明");
            reveal_strlit("界面语言 [Рус] [Eng] [中文]");
            reveal_strlit("退出");
            assert("选择源文件夹"@[2] != "选择特定文件夹"@[2]);
            assert("选择源文件夹"@[0] != "配置扩展名"@[0]);
            assert("选择源文件夹"@[0] != "配置分隔符 (0-5)"@[0]);
            assert("选择源文件夹"@[0] != "忽略系统目录"@[0]);
            assert("选择源文件夹"@[0] != "配置路径排除"@[0]);
            assert("选择源文件夹"@[2] != "选择输出文件"@[2]);
            assert("选择源文件夹"@[0] != "运行复制"@[0]);
            assert("选择源文件夹"@[0] != "显示文件列表预览"@[0]);
            assert("选择源文件夹"@[0] != "重置设置"@[0]);
            assert("选择源文件夹"@[0] != "保存为默认"@[0]);
            assert("选择源文件夹"@[0] != "显示说明"@[0]);
            assert("选择源文件夹"@[0] != "界面语言 [Рус] [Eng] [中文]"@[0]);
            assert("选择源文件夹"@[0] != "退出"@[0]);
            assert("选择特定文件夹"@[0] != "配置扩展名"@[0]);
            assert("选择特定文件夹"@[0] != "配置分隔符 (0-5)"@[0]);
            assert("选择特定文件夹"@[0] != "忽略系统目录"@[0]);
            assert("选择特定文件夹"@[0] != "配置路径排除"@[0]);
            assert("选择特定文件夹"@[2] != "选择输出文件"@[2]);
            assert("选择特定文件夹"@[0] != "运行复制"@[0]);
            assert("选择特定文件夹"@[0] != "显示文件列表预览"@[0]);
            assert("选择特定文件夹"@[0] != "重置设置"@[0]);
            assert("选择特定文件夹"@[0] != "保存为默认"@[0]);
            assert("选择特定文件夹"@[0] != "显示说明"@[0]);
            assert("选择特定文件夹"@[0] != "界面语言 [Рус] [Eng] [中文]"@[0]);
            assert("选择特定文件夹"@[0] != "退出"@[0]);
            assert("配置扩展名"@[2] != "配置分隔符 (0-5)"@[2]);
            assert("配置扩展名"@[0] != "忽略系统目录"@[0]);
            assert("配置扩展名"@[2] != "配置路径排除"@[2]);
            assert("配置扩展名"@[0] != "选择输出文件"@[0]);
            assert("配置扩展名"@[0] != "运行复制"@[0]);
            assert("配置扩展名"@[0] != "显示文件列表预览"@[0]);
            assert("配置扩展名"@[0] != "重置设置"@[0]);
            assert("配置扩展名"@[0] != "保存为默认"@[0]);
            assert("配置扩展名"@[0] != "显示说明"@[0]);
            assert("配置扩展名"@[0] != "界面语言 [Рус] [Eng] [中文]"@[0]);
            assert("配置扩展名"@[0] != "退出"@[0]);
            assert("配置分隔符 (0-5)"@[0] != "忽略系统目录"@[0]);
            assert("配置分隔符 (0-5)"@[2] != "配置路径排除"@[2]);
            assert("配置分隔符 (0-5)"@[0] != "选择输出文件"@[0]);
            assert("配置分隔符 (0-5)"@[0] != "运行复制"@[0]);
            assert("配置分隔符 (0-5)"@[0] != "显示文件列表预览"@[0]);
            assert("配置分隔符 (0-5)"@[0] != "重置设置"@[0]);
            assert("配置分隔符 (0-5)"@[0] != "保存为默认"@[0]);
            assert("配置分隔符 (0-5)"@[0] != "显示说明"@[0]);
            assert("配置分隔符 (0-5)"@[0] != "界面语言 [Рус] [Eng] [中文]"@[0]);
            assert("配置分隔符 (0-5)"@[0] != "退出"@[0]);
            assert("忽略系统目录"@[0] != "配置路径排除"@[0]);
            assert("忽略系统目录"@[0] != "选择输出文件"@[0]);
            assert("忽略系统目录"@[0] != "运行复制"@[0]);
            assert("忽略系统目录"@[0] != "显示文件列表预览"@[0]);
            assert("忽略系统目录"@[0] != "重置设置"@[0]);
            assert("忽略系统目录"@[0] != "保存为默认"@[0]);
            assert("忽略系统目录"@[0] != "显示说明"@[0]);
            assert("忽略系统目录"@[0] != "界面语言 [Рус] [Eng] [中文]"@[0]);
            assert("忽略系统目录"@[0] != "退出"@[0]);
            assert("配置路径排除"@[0] != "选择输出文件"@[0]);
            assert("配置路径排除"@[0] != "运行复制"@[0]);
            assert("配置路径排除"@[0] != "显示文件列表预览"@[0]);
            assert("配置路径排除"@[0] != "重置设置"@[0]);
            assert("配置路径排除"@[0] != "保存为默认"@[0]);
            assert("配置路径排除"@[0] != "显示说明"@[0]);
            assert("配置路径排除"@[0] != "界面语言 [Рус] [Eng] [中文]"@[0]);
            assert("配置路径排除"@[0] != "退出"@[0]);
            assert("选择输出文件"@[0] != "运行复制"@[0]);
            assert("选择输出文件"@[0] != "显示文件列表预览"@[0]);
            assert("选择输出文件"@[0] != "重置设置"@[0]);
            assert("选择输出文件"@[0] != "保存为默认"@[0]);
            assert("选择输出文件"@[0] != "显示说明"@[0]);
            assert("选择输出文件"@[0] != "界面语言 [Рус] [Eng] [中文]"@[0]);
            assert("选择输出文件"@[0] != "退出"@[0]);
            assert("运行复制"@[0] != "显示文件列表预览"@[0]);
            assert("运行复制"@[0] != "重置设置"@[0]);
            assert("运行复制"@[0] != "保存为默认"@[0]);
            assert("运行复制"@[0] != "显示说明"@[0]);
            assert("运行复制"@[0] != "界面语言 [Рус] [Eng] [中文]"@[0]);
            assert("运行复制"@[0] != "退出"@[0]);
            assert("显示文件列表预览"@[0] != "重置设置"@[0]);
            assert("显示文件列表预览"@[0] != "保存为默认"@[0]);
            assert("显示文件列表预览"@[2] != "显示说明"@[2]);
            assert("显示文件列表预览"@[0] != "界面语言 [Рус] [Eng] [中文]"@[0]);
            assert("显示文件列表预览"@[0] != "退出"@[0]);
            assert("重置设置"@[0] != "保存为默认"@[0]);
            assert("重置设置"@[0] != "显示说明"@[0]);
            assert("重置设置"@[0] != "界面语言 [Рус] [Eng] [中文]"@[0]);
            assert("重置设置"@[0] != "退出"@[0]);
            assert("保存为默认"@[0] != "显示说明"@[0]);
            assert("保存为默认"@[0] != "界面语言 [Рус] [Eng] [中文]"@[0]);
            assert("保存为默认"@[0] != "退出"@[0]);
            assert("显示说明"@[0] != "界面语言 [Рус] [Eng] [中文]"@[0]);
            assert("显示说明"@[0] != "退出"@[0]);
            assert("界面语言 [Рус] [Eng] [中文]"@[0] != "退出"@[0]);
        },
    }
    let s = menu_labels(lang);
    assert forall|i: int, j: int| 0 <= i < j < s.len() implies s[i] != s[j] by {
        assert(i == 0 || i == 1 || i == 2 || i == 3 || i == 4 || i == 5 || i == 6 || i == 7 || i == 8 || i == 9 || i == 10 || i == 11 || i == 12 || i == 13);
        assert(j == 0 || j == 1 || j == 2 || j == 3 || j == 4 || j == 5 || j == 6 || j == 7 || j == 8 || j == 9 || j == 10 || j == 11 || j == 12 || j == 13);
    }
}


// ---------------------------------------------------------------------------
// Which files are collected
// ---------------------------------------------------------------------------

proof fn lemma_last_dot_no_dot_suffix(a: Seq<char>, b: Seq<char>)
    requires
        !b.contains('.'),
    ensures
        last_dot(a + b) == last_dot(a),
    decreases b.len(),
{
    if b.len() == 0 {
        assert(a + b == a);
    } else {
        assert((a + b).last() == b.last());
        assert((a + b).drop_last() == a + b.drop_last());
        assert forall|j: int| 0 <= j < b.drop_last().len() implies b.drop_last()[j] != '.' by {
            assert(b.drop_last()[j] == b[j]);
        }
        lemma_last_dot_no_dot_suffix(a, b.drop_last());
    }
}

proof fn lemma_last_dot_at_most_first(n: Seq<char>)
    requires
        forall|j: int| 0 < j < n.len() ==> n[j] != '.',
    ensures
        last_dot(n) <= 0,
    decreases n.len(),
{
    if n.len() > 1 {
        let m = n.drop_last();
        assert(n.last() == n[n.len() - 1]);
        assert forall|j: int| 0 < j < m.len() implies m[j] != '.' by {
            assert(m[j] == n[j]);
        }
        lemma_last_dot_at_most_first(m);
        assert(last_dot(n) == last_dot(m));
    } else if n.len() == 1 {
        assert(n.drop_last().len() == 0);
        assert(last_dot(n.drop_last()) == -1);
    }
}

/// A name made of a stem, a `.` and a non-empty text without `.` has that
/// text as its extension.
pub proof fn law_extension_after_last_dot(stem: Seq<char>, x: Seq<char>)
    requires
        stem.len() > 0,
        x.len() > 0,
        !x.contains('.'),
    ensures
        extension_of(stem + "."@ + x) == Some(x),
{
    reveal_strlit(".");
    reveal_strlit("..");
    let name = stem + "."@ + x;
    lemma_last_dot_no_dot_suffix(stem + "."@, x);
    assert((stem + "."@).last() == '.');
    assert(last_dot(stem + "."@) == stem.len());
    assert(name.len() > 2);
    assert(name.skip(stem.len() + 1 as int) =~= x);
}

/// A name with no `.` after its first character (no `.` at all, or a
/// hidden file such as `.gitignore`) has no extension.
pub proof fn law_no_extension_without_inner_dot(name: Seq<char>)
    requires
        forall|j: int| 0 < j < name.len() ==> name[j] != '.',
    ensures
        extension_of(name) is None,
{
    lemma_last_dot_at_most_first(name);
}

/// A file outside the excluded paths (and inside the included folders, when
/// some are given) whose extension, with a leading `.`, stands at any
/// position of the enabled extensions is collected.
pub proof fn law_enabled_extension_collected(
    s: FilterSettings,
    e: WalkEntry,
    stem: Seq<char>,
    x: Seq<char>,
    i: int,
)
    requires
        e.is_file,
        !e.is_dir,
        !excluded(e.abs_path.deep_view(), s.exclude_dirs.deep_view()),
        s.include_dirs@.len() == 0 || inside_included(
            e.abs_path.deep_view(),
            s.include_dirs.deep_view(),
        ),
        e.name@ == stem + "."@ + x,
        stem.len() > 0,
        x.len() > 0,
        !x.contains('.'),
        0 <= i < s.enabled_extensions.deep_view().len(),
        s.enabled_extensions.deep_view()[i] == "."@ + x,
    ensures
        outcome_of(s, e).status == Some(Ok::<(), FilterReason>(())),
        !outcome_of(s, e).skip_dir,
{
    law_extension_after_last_dot(stem, x);
    assert(s.enabled_extensions.deep_view().contains("."@ + x));
}

/// Outside the all-files mode, a file whose extension, with a leading `.`,
/// is none of the enabled extensions is left out for its extension (when
/// nothing else leaves it out first).
pub proof fn law_other_extension_left_out(
    s: FilterSettings,
    e: WalkEntry,
    stem: Seq<char>,
    x: Seq<char>,
)
    requires
        !s.use_all_files,
        e.is_file,
        !e.is_dir,
        !excluded(e.abs_path.deep_view(), s.exclude_dirs.deep_view()),
        s.include_dirs@.len() == 0 || inside_included(
            e.abs_path.deep_view(),
            s.include_dirs.deep_view(),
        ),
        e.name@ == stem + "."@ + x,
        stem.len() > 0,
        x.len() > 0,
        !x.contains('.'),
        forall|i: int|
            0 <= i < s.enabled_extensions.deep_view().len() ==> s.enabled_extensions.deep_view()[i]
                != "."@ + x,
    ensures
        outcome_of(s, e).status == Some(Err::<(), FilterReason>(FilterReason::Extension)),
{
    law_extension_after_last_dot(stem, x);
}

/// Outside the all-files mode, a file with no `.` after its first character
/// is left out for its extension (when nothing else leaves it out first),
/// whatever extensions are enabled.
pub proof fn law_file_without_extension_left_out(s: FilterSettings, e: WalkEntry)
    requires
        !s.use_all_files,
        e.is_file,
        !e.is_dir,
        !excluded(e.abs_path.deep_view(), s.exclude_dirs.deep_view()),
        s.include_dirs@.len() == 0 || inside_included(
            e.abs_path.deep_view(),
            s.include_dirs.deep_view(),
        ),
        forall|j: int| 0 < j < e.name@.len() ==> e.name@[j] != '.',
    ensures
        outcome_of(s, e).status == Some(Err::<(), FilterReason>(FilterReason::Extension)),
{
    law_no_extension_without_inner_dot(e.name@);
}

// ---------------------------------------------------------------------------
// What the menu's choices do
// ---------------------------------------------------------------------------

proof fn lemma_choice_texts()
    ensures
        "1"@.len() == 1 && "1"@[0] == '1',
        "2"@.len() == 1 && "2"@[0] == '2',
        "3"@.len() == 1 && "3"@[0] == '3',
        "4"@.len() == 1 && "4"@[0] == '4',
        "5"@.len() == 1 && "5"@[0] == '5',
        "6"@.len() == 1 && "6"@[0] == '6',
        "7"@.len() == 1 && "7"@[0] == '7',
        "8"@.len() == 1 && "8"@[0] == '8',
        "9"@.len() == 1 && "9"@[0] == '9',
        "10"@.len() == 2 && "10"@[1] == '0',
        "11"@.len() == 2 && "11"@[1] == '1',
        "12"@.len() == 2 && "12"@[1] == '2',
        "13"@.len() == 2 && "13"@[1] == '3',
        "14"@.len() == 2 && "14"@[1] == '4',
{
    reveal_strlit("1");
    reveal_strlit("2");
    reveal_strlit("3");
    reveal_strlit("4");
    reveal_strlit("5");
    reveal_strlit("6");
    reveal_strlit("7");
    reveal_strlit("8");
    reveal_strlit("9");
    reveal_strlit("10");
    reveal_strlit("11");
    reveal_strlit("12");
    reveal_strlit("13");
    reveal_strlit("14");
}

/// In the exclusion submenu, "1" and then a path adds that path, "2" and
/// then a path removes every copy of it, and "3" empties the list; nothing
/// else in the settings changes, and the menu is back at its main level.
pub proof fn law_exclusion_submenu(c: ConfigView, a: Seq<char>, p: Seq<char>)
    ensures
        ({
            let (s1, c1, _) = step_spec(MenuState::ExcludeMenu, c, a);
            let (s2, c2, _) = step_spec(s1, c1, p);
            &&& trimmed(a) == "1"@ ==> s2 == MenuState::Main && c2 == (ConfigView {
                exclude_paths: c.exclude_paths.push(trimmed(p)),
                ..c
            })
            &&& trimmed(a) == "2"@ ==> s2 == MenuState::Main && c2 == (ConfigView {
                exclude_paths: without(c.exclude_paths, trimmed(p)),
                ..c
            })
            &&& trimmed(a) == "3"@ ==> s1 == MenuState::Main && c1 == (ConfigView {
                exclude_paths: Seq::empty(),
                ..c
            })
        }),
{
    lemma_choice_texts();
}

/// In the submenu of included folders, "1" and then a non-blank path adds
/// that path (a blank one changes nothing), "2" and then a path removes every
/// copy of it, and "3" empties the list; nothing else in the settings
/// changes, and the menu is back at its main level.
pub proof fn law_inclusion_submenu(c: ConfigView, a: Seq<char>, p: Seq<char>)
    ensures
        ({
            let (s1, c1, _) = step_spec(MenuState::IncludeMenu, c, a);
            let (s2, c2, _) = step_spec(s1, c1, p);
            &&& trimmed(a) == "1"@ ==> s2 == MenuState::Main && c2 == (if trimmed(p).len() == 0 {
                c
            } else {
                ConfigView { include_dirs: c.include_dirs.push(trimmed(p)), ..c }
            })
            &&& trimmed(a) == "2"@ ==> s2 == MenuState::Main && c2 == (ConfigView {
                include_dirs: without(c.include_dirs, trimmed(p)),
                ..c
            })
            &&& trimmed(a) == "3"@ ==> s1 == MenuState::Main && c1 == (ConfigView {
                include_dirs: Seq::empty(),
                ..c
            })
        }),
{
    lemma_choice_texts();
}

/// In the extensions submenu, "1" and then an extension enables it (stored
/// with a leading `.`), "2" and then an extension, typed with or without its
/// `.`, disables it, and "3" switches the all-files mode; nothing else in the
/// settings changes, and the menu is back at its main level.
pub proof fn law_extensions_submenu(c: ConfigView, a: Seq<char>, p: Seq<char>)
    ensures
        ({
            let (s1, c1, _) = step_spec(MenuState::ExtMenu, c, a);
            let (s2, c2, _) = step_spec(s1, c1, p);
            let t = trimmed(p);
            &&& trimmed(a) == "1"@ ==> s2 == MenuState::Main && c2 == (ConfigView {
                enabled_extensions: c.enabled_extensions.push(
                    if t.len() > 0 && t[0] == '.' {
                        t
                    } else {
                        "."@ + t
                    },
                ),
                ..c
            })
            &&& trimmed(a) == "2"@ ==> s2 == MenuState::Main && c2 == (ConfigView {
                enabled_extensions: without(without(c.enabled_extensions, t), "."@ + t),
                ..c
            })
            &&& trimmed(a) == "3"@ ==> s1 == MenuState::Main && c1 == (ConfigView {
                use_all_files: !c.use_all_files,
                ..c
            })
        }),
{
    lemma_choice_texts();
}

/// The choices of the main menu: "1", "4", "7" and "13" ask a question whose
/// answer sets the source folder, the separator, the output file and the
/// language; "2", "3" and "6" open the submenus of included folders,
/// extensions and exclusions; "5" switches ignoring system folders; "8" and
/// "9" copy and preview; "10" restores the first-run settings; "11" saves;
/// "14" quits.
pub proof fn law_main_menu_choices(c: ConfigView, a: Seq<char>, p: Seq<char>)
    ensures
        ({
            let l = config_lang(c);
            let (s1, c1, e1) = step_spec(MenuState::Main, c, a);
            let (s2, c2, _) = step_spec(s1, c1, p);
            &&& trimmed(a) == "1"@ ==> s2 == MenuState::Main && c2 == (ConfigView {
                last_source: trimmed(p),
                ..c
            })
            &&& trimmed(a) == "2"@ ==> s1 == MenuState::IncludeMenu && c1 == c
            &&& trimmed(a) == "3"@ ==> s1 == MenuState::ExtMenu && c1 == c
            &&& trimmed(a) == "4"@ ==> s2 == MenuState::Main && c2 == (match separator_choice(p) {
                Some(n) => ConfigView { separator_lines: n, ..c },
                None => c,
            })
            &&& trimmed(a) == "5"@ ==> s1 == MenuState::Main && c1 == (ConfigView {
                ignore_system_dirs: !c.ignore_system_dirs,
                ..c
            })
            &&& trimmed(a) == "6"@ ==> s1 == MenuState::ExcludeMenu && c1 == c
            &&& trimmed(a) == "7"@ ==> s2 == MenuState::Main && c2 == (ConfigView {
                last_output: trimmed(p),
                ..c
            })
            &&& trimmed(a) == "8"@ ==> s1 == MenuState::Main && c1 == c && e1[0]
                == EffectView::Copy(l)
            &&& trimmed(a) == "9"@ ==> s1 == MenuState::Main && c1 == c && e1[0]
                == EffectView::Preview(l)
            &&& trimmed(a) == "10"@ ==> s1 == MenuState::Main && c1 == default_view()
            &&& trimmed(a) == "11"@ ==> s1 == MenuState::Main && c1 == c && e1[0]
                == EffectView::Save
            &&& trimmed(a) == "13"@ ==> s2 == MenuState::Main && c2 == (match language_choice(p) {
                Some(code) => ConfigView { language: code, ..c },
                None => c,
            })
            &&& trimmed(a) == "14"@ ==> s1 == MenuState::Main && c1 == c && e1.last()
                == EffectView::Quit
        }),
{
    lemma_choice_texts();
}

/// The number under which the language question lists a language.
pub open spec fn listed_number(l: Lang) -> Seq<char> {
    match l {
        Lang::RU => "1"@,
        Lang::EN => "2"@,
        Lang::ZH => "3"@,
    }
}

/// The name under which the menu's language item shows a language.
pub open spec fn shown_name(l: Lang) -> Seq<char> {
    match l {
        Lang::RU => "Рус"@,
        Lang::EN => "Eng"@,
        Lang::ZH => "中文"@,
    }
}

/// The line of the language question for a language: its number, then its
/// code.
pub open spec fn question_line(l: Lang) -> Seq<char> {
    listed_number(l) + ". "@ + lang_code(l)
}

/// The language question lists the three languages, one per line, each
/// after its number.
pub proof fn law_language_question(c: ConfigView, a: Seq<char>)
    requires
        trimmed(a) == "13"@,
    ensures
        step_spec(MenuState::Main, c, a).0 == MenuState::Language,
        step_spec(MenuState::Main, c, a).2 == seq![
            EffectView::Say(
                question_line(Lang::RU) + "\n"@ + question_line(Lang::EN) + "\n"@ + question_line(
                    Lang::ZH,
                ),
            ),
        ],
{
    lemma_choice_texts();
    reveal_strlit("1. RU\n2. EN\n3. ZH");
    reveal_strlit(". ");
    reveal_strlit("\n");
    reveal_strlit("RU");
    reveal_strlit("EN");
    reveal_strlit("ZH");
    assert(question_line(Lang::RU) + "\n"@ + question_line(Lang::EN) + "\n"@ + question_line(
        Lang::ZH,
    ) =~= "1. RU\n2. EN\n3. ZH"@);
}

/// Answering the language question with the number that it lists for a
/// language, with that language's code, or with the name that the menu shows
/// for it, selects that language.
pub proof fn law_language_answers(line: Seq<char>, l: Lang)
    requires
        trimmed(line) == listed_number(l) || trimmed(line) == lang_code(l) || trimmed(line)
            == shown_name(l),
    ensures
        language_choice(line) == Some(lang_code(l)),
{
    lemma_choice_texts();
    reveal_strlit("RU");
    reveal_strlit("EN");
    reveal_strlit("ZH");
    reveal_strlit("Рус");
    reveal_strlit("Eng");
    reveal_strlit("中文");
    let t = trimmed(line);
    assert(t.len() > 0);
    if l != Lang::RU {
        assert(t[0] != '1' && t[0] != 'R' && t[0] != 'Р');
        assert(t != "1"@ && t != "RU"@ && t != "Рус"@);
    }
    if l == Lang::ZH {
        assert(t[0] != '2' && t[0] != 'E');
        assert(t != "2"@ && t != "EN"@ && t != "Eng"@);
    }
}

// ---------------------------------------------------------------------------
// Command-line options
// ---------------------------------------------------------------------------

/// What each command-line option does to the settings: the source folder,
/// the output file and the separator are always taken from the options; a
/// list of extensions, of excluded paths or of folders given on the command
/// line replaces the stored one, and a list not given leaves it alone;
/// `--all-files` turns that mode on and never off; `--include-system-dirs`
/// stops ignoring system folders and wins over `--ignore-system-dirs`; the
/// stored default extensions and language never change.
pub proof fn law_command_line_options(c: ConfigView, o: CliOptions)
    ensures
        ({
            let r = with_cli(c, o);
            &&& r.last_source == o.source@
            &&& r.last_output == o.output@
            &&& r.separator_lines == o.sep
            &&& (match o.exts {
                Some(v) => r.enabled_extensions == v.deep_view(),
                None => r.enabled_extensions == c.enabled_extensions,
            })
            &&& (match o.exclude {
                Some(v) => r.exclude_paths == v.deep_view(),
                None => r.exclude_paths == c.exclude_paths,
            })
            &&& (match o.only_dirs {
                Some(v) => r.include_dirs == v.deep_view(),
                None => r.include_dirs == c.include_dirs,
            })
            &&& (o.all_files ==> r.use_all_files)
            &&& (!o.all_files ==> r.use_all_files == c.use_all_files)
            &&& (o.include_system_dirs ==> !r.ignore_system_dirs)
            &&& (!o.include_system_dirs && o.ignore_system_dirs ==> r.ignore_system_dirs)
            &&& (!o.include_system_dirs && !o.ignore_system_dirs ==> r.ignore_system_dirs
                == c.ignore_system_dirs)
            &&& r.default_extensions == c.default_extensions
            &&& r.language == c.language
        }),
{
}

// ---------------------------------------------------------------------------
// Paging through the preview
// ---------------------------------------------------------------------------

proof fn lemma_page_end(from: int, n: int)
    requires
        0 <= from < n,
    ensures
        from < page_end(from, n, true) <= n,
        page_end(from, n, true) - from <= 50,
        page_end(from, n, true) == n || page_end(from, n, true) % 50 == 0,
        page_end(from, n, false) == n,
{
    let q = from / 50;
    vstd::arithmetic::div_mod::lemma_fundamental_div_mod(from, 50);
    assert(0 <= from % 50 < 50);
    assert((q + 1) * 50 == 50 * q + 50) by (nonlinear_arith);
    vstd::arithmetic::div_mod::lemma_mod_multiples_basic(q + 1, 50);
}

/// The preview's line for an entry: its number from 1, its shown path and
/// its status mark.
pub open spec fn entry_line(entries: Seq<FileEntry>, lang: Lang, k: int) -> Seq<char> {
    preview_line_text(
        (k + 1) as nat,
        entries[k].rel_path@,
        tr_text(marker_msg(entries[k].status), lang),
    )
}

/// An interactive preview that pauses at a full page has shown the lines of
/// the entries from `from` on, one per entry and in order, and resumes after
/// the last of them: the preview always moves forward, by at most 50
/// entries, and pauses only after a multiple of 50 entries. (The entries fit
/// in memory, so their number is a `usize`.)
pub proof fn law_preview_page_moves_forward(entries: Seq<FileEntry>, lang: Lang, from: nat)
    requires
        entries.len() <= usize::MAX,
    ensures
        ({
            let (lines, w) = run_spec(entries, lang, true, from as int);
            w matches PreviewWait::Page(k) ==> {
                &&& from < k <= entries.len()
                &&& k - from <= 50
                &&& k % 50 == 0
                &&& lines.len() == k - from + 1
                &&& forall|i: int|
                    0 <= i < k - from ==> lines[i] == entry_line(entries, lang, from + i)
                &&& lines.last() == "\n"@ + tr_text(Msg::PreviewNext, lang)
            }
        }),
{
    let n = entries.len() as int;
    if (from as int) < n {
        lemma_page_end(from as int, n);
    }
}

/// A preview that does not pause at a page shows the lines of all the
/// entries from `from` to the end, one per entry and in order; it then asks
/// whether to copy exactly when it is interactive and some entry is
/// collected, and otherwise ends without copying. A preview that is not
/// interactive never pauses.
pub proof fn law_preview_runs_to_the_end(
    entries: Seq<FileEntry>,
    lang: Lang,
    interactive: bool,
    from: nat,
)
    requires
        from <= entries.len(),
    ensures
        ({
            let (lines, w) = run_spec(entries, lang, interactive, from as int);
            &&& !interactive ==> !(w is Page)
            &&& !(w is Page) ==> {
                &&& lines.len() >= entries.len() - from
                &&& forall|i: int|
                    0 <= i < entries.len() - from ==> lines[i] == entry_line(entries, lang, from + i)
                &&& (w == PreviewWait::Confirm) == (interactive && ok_positions(entries).len() > 0)
                &&& w != PreviewWait::Confirm ==> w == PreviewWait::Done(false)
            }
        }),
{
    let n = entries.len() as int;
    if (from as int) < n {
        lemma_page_end(from as int, n);
    }
}

/// At a full page, `q` in either case ends the preview without copying and
/// an empty answer (Enter) goes on from where the page stopped; at the
/// question whether to copy, `y` in either case copies and an empty answer
/// does not.
pub proof fn law_preview_answers(k: usize, input: Seq<char>, lang: Lang)
    ensures
        trimmed(input) == "q"@ || trimmed(input) == "Q"@ ==> answer_spec(
            PreviewWait::Page(k),
            input,
            lang,
        ) == PreviewNext::Finish(false),
        trimmed(input).len() == 0 ==> answer_spec(PreviewWait::Page(k), input, lang)
            == PreviewNext::Continue(k),
        trimmed(input) == "y"@ || trimmed(input) == "Y"@ ==> answer_spec(
            PreviewWait::Confirm,
            input,
            lang,
        ) == PreviewNext::Finish(true),
        trimmed(input).len() == 0 ==> answer_spec(PreviewWait::Confirm, input, lang)
            == PreviewNext::Finish(false),
{
    reveal_strlit("q");
    reveal_strlit("Q");
    reveal_strlit("y");
    reveal_strlit("Y");
    let t = trimmed(input);
    if t == "Q"@ {
        assert(ascii_lower(t[0]) == 'q');
    }
    if t == "Y"@ {
        assert(ascii_lower(t[0]) == 'y');
    }
}

/// Typing the decimal text of a number (with any surrounding blanks) at the
/// separator question sets that number when it is from 0 to 5, and is
/// refused when it is larger.
pub proof fn law_separator_answers(input: Seq<char>, n: nat)
    requires
        trimmed(input) == decimal(n),
    ensures
        n <= 5 ==> separator_choice(input) == Some(n as u8),
        n > 5 ==> separator_choice(input) is None,
{
    lemma_decimal_digits(n);
    assert(unsigned_digits(decimal(n)) == decimal(n));
}

/// With system folders ignored, a hidden folder, `target` and
/// `node_modules` are listed as system folders and not walked into; with
/// them not ignored, nothing is ever left out as a system folder.
pub proof fn law_system_folders(s: FilterSettings, e: WalkEntry)
    ensures
        s.ignore_system_dirs && e.is_dir && ((e.name@.len() > 0 && e.name@[0] == '.') || e.name@
            == "target"@ || e.name@ == "node_modules"@) ==> outcome_of(s, e) == (Outcome {
            status: Some(Err::<(), FilterReason>(FilterReason::SystemDir)),
            skip_dir: true,
        }),
        !s.ignore_system_dirs ==> outcome_of(s, e).status != Some(
            Err::<(), FilterReason>(FilterReason::SystemDir),
        ),
{
}

/// When folders to include are given, a file that lies in none of them is
/// never collected but listed as not included, and a folder that is one of
/// them, lies in one, or lies on the way to one is walked into (unless it is
/// excluded or a system folder).
pub proof fn law_included_folders(s: FilterSettings, e: WalkEntry, i: int)
    requires
        s.include_dirs@.len() > 0,
        !(s.ignore_system_dirs && e.is_dir && is_system_name(e.name@)),
        !excluded(e.abs_path.deep_view(), s.exclude_dirs.deep_view()),
    ensures
        !e.is_dir && (forall|j: int|
            0 <= j < s.include_dirs.deep_view().len() ==> !is_prefix(
                #[trigger] s.include_dirs.deep_view()[j],
                e.abs_path.deep_view(),
            )) ==> outcome_of(s, e).status == Some(
            Err::<(), FilterReason>(FilterReason::NotIncluded),
        ),
        e.is_dir && 0 <= i < s.include_dirs.deep_view().len() && (is_prefix(
            s.include_dirs.deep_view()[i],
            e.abs_path.deep_view(),
        ) || is_prefix(e.abs_path.deep_view(), s.include_dirs.deep_view()[i]))
            ==> !outcome_of(s, e).skip_dir,
{
}

/// The separator is that many empty lines: `sep` line ends and nothing else.
pub proof fn law_separator_is_line_ends(sep: nat)
    ensures
        newlines(sep).len() == sep,
        forall|i: int| 0 <= i < sep ==> newlines(sep)[i] == '\n',
    decreases sep,
{
    if sep > 0 {
        law_separator_is_line_ends((sep - 1) as nat);
        assert forall|i: int| 0 <= i < sep implies newlines(sep)[i] == '\n' by {
            if i < sep - 1 {
                assert(newlines(sep)[i] == newlines((sep - 1) as nat)[i]);
            }
        }
    }
}

/// A file is written as its relative path on a line, then its content on
/// the following lines; one line end that closes the content is not doubled.
pub proof fn law_file_block_layout(rel: Seq<char>, content: Seq<char>, more: bool, sep: u8)
    requires
        content.len() == 0 || content.last() != '\n',
    ensures
        block_text(rel, content, false, sep) == rel + "\n"@ + content + "\n"@,
        block_text(rel, content.push('\n'), more, sep) == block_text(rel, content, more, sep),
{
    reveal_strlit("\n");
    assert(content.push('\n').drop_last() == content);
    assert(rel + "\n"@ + content + "\n"@ + Seq::<char>::empty() == rel + "\n"@ + content + "\n"@);
}

} // verus!
