use vstd::prelude::*;

use crate::text::{
    all_ascii, ascii_lower, ascii_upper_all, str_concat, str_eq, to_uppercase, uppercase,
};

verus! {

/// Interface languages.
#[derive(Debug, Clone, Copy, PartialEq, Eq, Structural)]
pub enum Lang {
    RU,
    EN,
    ZH,
}

/// Every message of the user interface.
#[derive(Debug, Clone, Copy)]
pub enum Msg {
    Footer, MenuTitle,
    M1, M2, M3, M4, M5, M6, M7, M8, M9, M10, M11, M12, M13, M14,
    PromptChoice, PromptSource, PromptOutput,
    CurrentExts, PromptAddExt, PromptRemExt, UseAllFiles,
    CurrentSep, PromptSep,
    CurrentExcl, PromptAddExcl, PromptRemExcl, PromptClearExcl,
    CurrentIncl, PromptAddIncl, PromptRemIncl, PromptClearIncl,
    PreviewTitle, PreviewNext, RunCopyPrompt, Yes, InvalidChoice, Utf8Warn, ResetSuccess, SaveSuccess,
    ExitMsg, StatusOk, StatusExcl, StatusSys, StatusExt, StatusNotIncl,
    UsageDetails,
}

/// The text of message `msg` in language `lang`.
pub open spec fn tr_text(msg: Msg, lang: Lang) -> Seq<char> {
    match msg {
        Msg::Footer => match lang {
            Lang::RU => "Сделано в России. Программа создана полностью на языке программирования Rust. Автор программы: М. Мих. Мир"@,
            Lang::EN => "Made in Russia. The program is created entirely in the Rust programming language. Author: M. Mikh. Mir"@,
            Lang::ZH => "在俄罗斯制造。该程序完全使用 Rust 编程语言创建。作者：M. Mikh. Mir"@,
        },
        Msg::MenuTitle => match lang {
            Lang::RU => "ГЛАВНОЕ МЕНЮ"@,
            Lang::EN => "MAIN MENU"@,
            Lang::ZH => "主菜单"@,
        },
        Msg::M1 => match lang {
            Lang::RU => "Выбрать исходную папку"@,
            Lang::EN => "Select source folder"@,
            Lang::ZH => "选择源文件夹"@,
        },
        Msg::M2 => match lang {
            Lang::RU => "Выбрать определённые папки"@,
            Lang::EN => "Select specific folders"@,
            Lang::ZH => "选择特定文件夹"@,
        },
        Msg::M3 => match lang {
            Lang::RU => "Настроить расширения"@,
            Lang::EN => "Configure extensions"@,
            Lang::ZH => "配置扩展名"@,
        },
        Msg::M4 => match lang {
            Lang::RU => "Настроить разделитель (0-5)"@,
            Lang::EN => "Configure separator (0-5)"@,
            Lang::ZH => "配置分隔符 (0-5)"@,
        },
        Msg::M5 => match lang {
            Lang::RU => "Игнорировать служебные папки"@,
            Lang::EN => "Ignore system directories"@,
            Lang::ZH => "忽略系统目录"@,
        },
        Msg::M6 => match lang {
            Lang::RU => "Настроить исключения по путям"@,
            Lang::EN => "Configure path exclusions"@,
            Lang::ZH => "配置路径排除"@,
        },
        Msg::M7 => match lang {
            Lang::RU => "Выбрать выходной файл"@,
            Lang::EN => "Select output file"@,
            Lang::ZH => "选择输出文件"@,
        },
        Msg::M8 => match lang {
            Lang::RU => "Запустить копирование"@,
            Lang::EN => "Run copy"@,
            Lang::ZH => "运行复制"@,
        },
        Msg::M9 => match lang {
            Lang::RU => "Показать превью списка файлов"@,
            Lang::EN => "Show file list preview"@,
            Lang::ZH => "显示文件列表预览"@,
        },
        Msg::M10 => match lang {
            Lang::RU => "Сбросить настройки"@,
            Lang::EN => "Reset settings"@,
            Lang::ZH => "重置设置"@,
        },
        Msg::M11 => match lang {
            Lang::RU => "Сохранить как умолчания"@,
            Lang::EN => "Save as defaults"@,
            Lang::ZH => "保存为默认"@,
        },
        Msg::M12 => match lang {
            Lang::RU => "Показать инструкцию"@,
            Lang::EN => "Show instructions"@,
            Lang::ZH => "显示说明"@,
        },
        Msg::M13 => match lang {
            Lang::RU => "Язык интерфейса [Рус] [Eng] [中文]"@,
            Lang::EN => "Interface language [Рус] [Eng] [中文]"@,
            Lang::ZH => "界面语言 [Рус] [Eng] [中文]"@,
        },
        Msg::M14 => match lang {
            Lang::RU => "Выход"@,
            Lang::EN => "Exit"@,
            Lang::ZH => "退出"@,
        },
        Msg::PromptChoice => match lang {
            Lang::RU => "Ваш выбор: "@,
            Lang::EN => "Your choice: "@,
            Lang::ZH => "您的选择: "@,
        },
        Msg::PromptSource => match lang {
            Lang::RU => "Введите путь к исходной папке: "@,
            Lang::EN => "Enter source folder path: "@,
            Lang::ZH => "输入源文件夹路径: "@,
        },
        Msg::PromptOutput => match lang {
            Lang::RU => "Введите имя выходного файла: "@,
            Lang::EN => "Enter output file name: "@,
            Lang::ZH => "输入输出文件名: "@,
        },
        Msg::CurrentExts => match lang {
            Lang::RU => "1. Добавить\n2. Удалить\n3. Переключить 'Все файлы'"@,
            Lang::EN => "1. Add\n2. Remove\n3. Toggle 'All files'"@,
            Lang::ZH => "1. 添加\n2. 删除\n3. 切换'所有文件'"@,
        },
        Msg::PromptAddExt => match lang {
            Lang::RU => "Введите расширение (напр. .md): "@,
            Lang::EN => "Enter extension (e.g. .md): "@,
            Lang::ZH => "输入扩展名 (例如 .md): "@,
        },
        Msg::PromptRemExt => match lang {
            Lang::RU => "Введите расширение для удаления: "@,
            Lang::EN => "Enter extension to remove: "@,
            Lang::ZH => "输入要删除的扩展名: "@,
        },
        Msg::UseAllFiles => match lang {
            Lang::RU => "Режим 'Все файлы' переключен."@,
            Lang::EN => "Toggled 'All files' mode."@,
            Lang::ZH => "已切换'所有文件'模式"@,
        },
        Msg::CurrentSep => match lang {
            Lang::RU => "Текущий разделитель: "@,
            Lang::EN => "Current separator: "@,
            Lang::ZH => "当前分隔符: "@,
        },
        Msg::PromptSep => match lang {
            Lang::RU => "Введите число пустых строк (0-5): "@,
            Lang::EN => "Enter number of empty lines (0-5): "@,
            Lang::ZH => "输入空行数 (0-5): "@,
        },
        Msg::CurrentExcl => match lang {
            Lang::RU => "1. Добавить\n2. Удалить\n3. Очистить все"@,
            Lang::EN => "1. Add\n2. Remove\n3. Clear all"@,
            Lang::ZH => "1. 添加\n2. 删除\n3. 清除所有"@,
        },
        Msg::PromptAddExcl => match lang {
            Lang::RU => "Введите путь для исключения: "@,
            Lang::EN => "Enter path to exclude: "@,
            Lang::ZH => "输入要排除的路径: "@,
        },
        Msg::PromptRemExcl => match lang {
            Lang::RU => "Введите путь для удаления: "@,
            Lang::EN => "Enter path to remove: "@,
            Lang::ZH => "输入要删除的路径: "@,
        },
        Msg::PromptClearExcl => match lang {
            Lang::RU => "Список исключений очищен."@,
            Lang::EN => "Exclusion list cleared."@,
            Lang::ZH => "排除列表已清除"@,
        },
        Msg::CurrentIncl => match lang {
            Lang::RU => "1. Добавить\n2. Удалить\n3. Очистить все"@,
            Lang::EN => "1. Add\n2. Remove\n3. Clear all"@,
            Lang::ZH => "1. 添加\n2. 删除\n3. 清除所有"@,
        },
        Msg::PromptAddIncl => match lang {
            Lang::RU => "Введите путь к папке для включения: "@,
            Lang::EN => "Enter folder path to include: "@,
            Lang::ZH => "输入要包含的文件夹路径: "@,
        },
        Msg::PromptRemIncl => match lang {
            Lang::RU => "Введите путь для удаления: "@,
            Lang::EN => "Enter path to remove: "@,
            Lang::ZH => "输入要删除的路径: "@,
        },
        Msg::PromptClearIncl => match lang {
            Lang::RU => "Список включённых папок очищен."@,
            Lang::EN => "Included folders list cleared."@,
            Lang::ZH => "包含文件夹列表已清除"@,
        },
        Msg::PreviewTitle => match lang {
            Lang::RU => "ПРЕВЬЮ: будет скопировано {} файлов"@,
            Lang::EN => "PREVIEW: {} files will be copied"@,
            Lang::ZH => "预览: 将复制 {} 个文件"@,
        },
        Msg::PreviewNext => match lang {
            Lang::RU => "Показать следующие 50 [Enter], или Q для выхода"@,
            Lang::EN => "Show next 50 [Enter], or Q to quit"@,
            Lang::ZH => "显示下50个 [回车], 或 Q 退出"@,
        },
        Msg::RunCopyPrompt => match lang {
            Lang::RU => "Выполнить копирование этих файлов? (Y/N): "@,
            Lang::EN => "Run copy for these files? (Y/N): "@,
            Lang::ZH => "复制这些文件吗？(Y/N): "@,
        },
        Msg::Yes => match lang {
            Lang::RU => "Y"@,
            Lang::EN => "Y"@,
            Lang::ZH => "Y"@,
        },
        Msg::InvalidChoice => match lang {
            Lang::RU => "Неверный выбор."@,
            Lang::EN => "Invalid choice."@,
            Lang::ZH => "无效选择"@,
        },
        Msg::Utf8Warn => match lang {
            Lang::RU => "Пропуск (не UTF-8)"@,
            Lang::EN => "Skipping (not UTF-8)"@,
            Lang::ZH => "跳过 (非 UTF-8)"@,
        },
        Msg::ResetSuccess => match lang {
            Lang::RU => "Настройки сброшены."@,
            Lang::EN => "Settings reset."@,
            Lang::ZH => "设置已重置"@,
        },
        Msg::SaveSuccess => match lang {
            Lang::RU => "Настройки сохранены."@,
            Lang::EN => "Settings saved."@,
            Lang::ZH => "设置已保存"@,
        },
        Msg::ExitMsg => match lang {
            Lang::RU => "До свидания!"@,
            Lang::EN => "Goodbye!"@,
            Lang::ZH => "再见!"@,
        },
        Msg::StatusOk => match lang {
            Lang::RU => "[OK]"@,
            Lang::EN => "[OK]"@,
            Lang::ZH => "[OK]"@,
        },
        Msg::StatusExcl => match lang {
            Lang::RU => "[ИСКЛ]"@,
            Lang::EN => "[EXCL]"@,
            Lang::ZH => "[排除]"@,
        },
        Msg::StatusSys => match lang {
            Lang::RU => "[СИСТ]"@,
            Lang::EN => "[SYS]"@,
            Lang::ZH => "[系统]"@,
        },
        Msg::StatusExt => match lang {
            Lang::RU => "[РАСШ]"@,
            Lang::EN => "[EXT]"@,
            Lang::ZH => "[扩展]"@,
        },
        Msg::StatusNotIncl => match lang {
            Lang::RU => "[НЕ ВКЛ]"@,
            Lang::EN => "[NOT INCL]"@,
            Lang::ZH => "[未包含]"@,
        },
        Msg::UsageDetails => match lang {
            Lang::RU => "ИНСТРУКЦИЯ:\nПрограмма собирает код из монорепозитория в один текстовый файл.\nПоддерживаются превью (--preview), исключения (--exclude), выбор конкретных папок (--only-dirs) и настройки конфигурации."@,
            Lang::EN => "INSTRUCTIONS:\nCollects code from monorepo into a single text file.\nSupports preview (--preview), exclusions (--exclude), specific folders (--only-dirs) and config settings."@,
            Lang::ZH => "说明:\n从 monorepo 收集代码到单个文本文件。\n支持预览 (--preview)、排除 (--exclude)、特定文件夹 (--only-dirs) 和配置设置."@,
        },
    }
}

/// Translates a message into the given language.
pub fn tr(msg: Msg, lang: Lang) -> (text: String)
    ensures
        text@ == tr_text(msg, lang),
{
    match msg {
        Msg::Footer => match lang {
            Lang::RU => String::from_str("Сделано в России. Программа создана полностью на языке программирования Rust. Автор программы: М. Мих. Мир"),
            Lang::EN => String::from_str("Made in Russia. The program is created entirely in the Rust programming language. Author: M. Mikh. Mir"),
            Lang::ZH => String::from_str("在俄罗斯制造。该程序完全使用 Rust 编程语言创建。作者：M. Mikh. Mir"),
        },
        Msg::MenuTitle => match lang {
            Lang::RU => String::from_str("ГЛАВНОЕ МЕНЮ"),
            Lang::EN => String::from_str("MAIN MENU"),
            Lang::ZH => String::from_str("主菜单"),
        },
        Msg::M1 => match lang {
            Lang::RU => String::from_str("Выбрать исходную папку"),
            Lang::EN => String::from_str("Select source folder"),
            Lang::ZH => String::from_str("选择源文件夹"),
        },
        Msg::M2 => match lang {
            Lang::RU => String::from_str("Выбрать определённые папки"),
            Lang::EN => String::from_str("Select specific folders"),
            Lang::ZH => String::from_str("选择特定文件夹"),
        },
        Msg::M3 => match lang {
            Lang::RU => String::from_str("Настроить расширения"),
            Lang::EN => String::from_str("Configure extensions"),
            Lang::ZH => String::from_str("配置扩展名"),
        },
        Msg::M4 => match lang {
            Lang::RU => String::from_str("Настроить разделитель (0-5)"),
            Lang::EN => String::from_str("Configure separator (0-5)"),
            Lang::ZH => String::from_str("配置分隔符 (0-5)"),
        },
        Msg::M5 => match lang {
            Lang::RU => String::from_str("Игнорировать служебные папки"),
            Lang::EN => String::from_str("Ignore system directories"),
            Lang::ZH => String::from_str("忽略系统目录"),
        },
        Msg::M6 => match lang {
            Lang::RU => String::from_str("Настроить исключения по путям"),
            Lang::EN => String::from_str("Configure path exclusions"),
            Lang::ZH => String::from_str("配置路径排除"),
        },
        Msg::M7 => match lang {
            Lang::RU => String::from_str("Выбрать выходной файл"),
            Lang::EN => String::from_str("Select output file"),
            Lang::ZH => String::from_str("选择输出文件"),
        },
        Msg::M8 => match lang {
            Lang::RU => String::from_str("Запустить копирование"),
            Lang::EN => String::from_str("Run copy"),
            Lang::ZH => String::from_str("运行复制"),
        },
        Msg::M9 => match lang {
            Lang::RU => String::from_str("Показать превью списка файлов"),
            Lang::EN => String::from_str("Show file list preview"),
            Lang::ZH => String::from_str("显示文件列表预览"),
        },
        Msg::M10 => match lang {
            Lang::RU => String::from_str("Сбросить настройки"),
            Lang::EN => String::from_str("Reset settings"),
            Lang::ZH => String::from_str("重置设置"),
        },
        Msg::M11 => match lang {
            Lang::RU => String::from_str("Сохранить как умолчания"),
            Lang::EN => String::from_str("Save as defaults"),
            Lang::ZH => String::from_str("保存为默认"),
        },
        Msg::M12 => match lang {
            Lang::RU => String::from_str("Показать инструкцию"),
            Lang::EN => String::from_str("Show instructions"),
            Lang::ZH => String::from_str("显示说明"),
        },
        Msg::M13 => match lang {
            Lang::RU => String::from_str("Язык интерфейса [Рус] [Eng] [中文]"),
            Lang::EN => String::from_str("Interface language [Рус] [Eng] [中文]"),
            Lang::ZH => String::from_str("界面语言 [Рус] [Eng] [中文]"),
        },
        Msg::M14 => match lang {
            Lang::RU => String::from_str("Выход"),
            Lang::EN => String::from_str("Exit"),
            Lang::ZH => String::from_str("退出"),
        },
        Msg::PromptChoice => match lang {
            Lang::RU => String::from_str("Ваш выбор: "),
            Lang::EN => String::from_str("Your choice: "),
            Lang::ZH => String::from_str("您的选择: "),
        },
        Msg::PromptSource => match lang {
            Lang::RU => String::from_str("Введите путь к исходной папке: "),
            Lang::EN => String::from_str("Enter source folder path: "),
            Lang::ZH => String::from_str("输入源文件夹路径: "),
        },
        Msg::PromptOutput => match lang {
            Lang::RU => String::from_str("Введите имя выходного файла: "),
            Lang::EN => String::from_str("Enter output file name: "),
            Lang::ZH => String::from_str("输入输出文件名: "),
        },
        Msg::CurrentExts => match lang {
            Lang::RU => String::from_str("1. Добавить\n2. Удалить\n3. Переключить 'Все файлы'"),
            Lang::EN => String::from_str("1. Add\n2. Remove\n3. Toggle 'All files'"),
            Lang::ZH => String::from_str("1. 添加\n2. 删除\n3. 切换'所有文件'"),
        },
        Msg::PromptAddExt => match lang {
            Lang::RU => String::from_str("Введите расширение (напр. .md): "),
            Lang::EN => String::from_str("Enter extension (e.g. .md): "),
            Lang::ZH => String::from_str("输入扩展名 (例如 .md): "),
        },
        Msg::PromptRemExt => match lang {
            Lang::RU => String::from_str("Введите расширение для удаления: "),
            Lang::EN => String::from_str("Enter extension to remove: "),
            Lang::ZH => String::from_str("输入要删除的扩展名: "),
        },
        Msg::UseAllFiles => match lang {
            Lang::RU => String::from_str("Режим 'Все файлы' переключен."),
            Lang::EN => String::from_str("Toggled 'All files' mode."),
            Lang::ZH => String::from_str("已切换'所有文件'模式"),
        },
        Msg::CurrentSep => match lang {
            Lang::RU => String::from_str("Текущий разделитель: "),
            Lang::EN => String::from_str("Current separator: "),
            Lang::ZH => String::from_str("当前分隔符: "),
        },
        Msg::PromptSep => match lang {
            Lang::RU => String::from_str("Введите число пустых строк (0-5): "),
            Lang::EN => String::from_str("Enter number of empty lines (0-5): "),
            Lang::ZH => String::from_str("输入空行数 (0-5): "),
        },
        Msg::CurrentExcl => match lang {
            Lang::RU => String::from_str("1. Добавить\n2. Удалить\n3. Очистить все"),
            Lang::EN => String::from_str("1. Add\n2. Remove\n3. Clear all"),
            Lang::ZH => String::from_str("1. 添加\n2. 删除\n3. 清除所有"),
        },
        Msg::PromptAddExcl => match lang {
            Lang::RU => String::from_str("Введите путь для исключения: "),
            Lang::EN => String::from_str("Enter path to exclude: "),
            Lang::ZH => String::from_str("输入要排除的路径: "),
        },
        Msg::PromptRemExcl => match lang {
            Lang::RU => String::from_str("Введите путь для удаления: "),
            Lang::EN => String::from_str("Enter path to remove: "),
            Lang::ZH => String::from_str("输入要删除的路径: "),
        },
        Msg::PromptClearExcl => match lang {
            Lang::RU => String::from_str("Список исключений очищен."),
            Lang::EN => String::from_str("Exclusion list cleared."),
            Lang::ZH => String::from_str("排除列表已清除"),
        },
        Msg::CurrentIncl => match lang {
            Lang::RU => String::from_str("1. Добавить\n2. Удалить\n3. Очистить все"),
            Lang::EN => String::from_str("1. Add\n2. Remove\n3. Clear all"),
            Lang::ZH => String::from_str("1. 添加\n2. 删除\n3. 清除所有"),
        },
        Msg::PromptAddIncl => match lang {
            Lang::RU => String::from_str("Введите путь к папке для включения: "),
            Lang::EN => String::from_str("Enter folder path to include: "),
            Lang::ZH => String::from_str("输入要包含的文件夹路径: "),
        },
        Msg::PromptRemIncl => match lang {
            Lang::RU => String::from_str("Введите путь для удаления: "),
            Lang::EN => String::from_str("Enter path to remove: "),
            Lang::ZH => String::from_str("输入要删除的路径: "),
        },
        Msg::PromptClearIncl => match lang {
            Lang::RU => String::from_str("Список включённых папок очищен."),
            Lang::EN => String::from_str("Included folders list cleared."),
            Lang::ZH => String::from_str("包含文件夹列表已清除"),
        },
        Msg::PreviewTitle => match lang {
            Lang::RU => String::from_str("ПРЕВЬЮ: будет скопировано {} файлов"),
            Lang::EN => String::from_str("PREVIEW: {} files will be copied"),
            Lang::ZH => String::from_str("预览: 将复制 {} 个文件"),
        },
        Msg::PreviewNext => match lang {
            Lang::RU => String::from_str("Показать следующие 50 [Enter], или Q для выхода"),
            Lang::EN => String::from_str("Show next 50 [Enter], or Q to quit"),
            Lang::ZH => String::from_str("显示下50个 [回车], 或 Q 退出"),
        },
        Msg::RunCopyPrompt => match lang {
            Lang::RU => String::from_str("Выполнить копирование этих файлов? (Y/N): "),
            Lang::EN => String::from_str("Run copy for these files? (Y/N): "),
            Lang::ZH => String::from_str("复制这些文件吗？(Y/N): "),
        },
        Msg::Yes => match lang {
            Lang::RU => String::from_str("Y"),
            Lang::EN => String::from_str("Y"),
            Lang::ZH => String::from_str("Y"),
        },
        Msg::InvalidChoice => match lang {
            Lang::RU => String::from_str("Неверный выбор."),
            Lang::EN => String::from_str("Invalid choice."),
            Lang::ZH => String::from_str("无效选择"),
        },
        Msg::Utf8Warn => match lang {
            Lang::RU => String::from_str("Пропуск (не UTF-8)"),
            Lang::EN => String::from_str("Skipping (not UTF-8)"),
            Lang::ZH => String::from_str("跳过 (非 UTF-8)"),
        },
        Msg::ResetSuccess => match lang {
            Lang::RU => String::from_str("Настройки сброшены."),
            Lang::EN => String::from_str("Settings reset."),
            Lang::ZH => String::from_str("设置已重置"),
        },
        Msg::SaveSuccess => match lang {
            Lang::RU => String::from_str("Настройки сохранены."),
            Lang::EN => String::from_str("Settings saved."),
            Lang::ZH => String::from_str("设置已保存"),
        },
        Msg::ExitMsg => match lang {
            Lang::RU => String::from_str("До свидания!"),
            Lang::EN => String::from_str("Goodbye!"),
            Lang::ZH => String::from_str("再见!"),
        },
        Msg::StatusOk => match lang {
            Lang::RU => String::from_str("[OK]"),
            Lang::EN => String::from_str("[OK]"),
            Lang::ZH => String::from_str("[OK]"),
        },
        Msg::StatusExcl => match lang {
            Lang::RU => String::from_str("[ИСКЛ]"),
            Lang::EN => String::from_str("[EXCL]"),
            Lang::ZH => String::from_str("[排除]"),
        },
        Msg::StatusSys => match lang {
            Lang::RU => String::from_str("[СИСТ]"),
            Lang::EN => String::from_str("[SYS]"),
            Lang::ZH => String::from_str("[系统]"),
        },
        Msg::StatusExt => match lang {
            Lang::RU => String::from_str("[РАСШ]"),
            Lang::EN => String::from_str("[EXT]"),
            Lang::ZH => String::from_str("[扩展]"),
        },
        Msg::StatusNotIncl => match lang {
            Lang::RU => String::from_str("[НЕ ВКЛ]"),
            Lang::EN => String::from_str("[NOT INCL]"),
            Lang::ZH => String::from_str("[未包含]"),
        },
        Msg::UsageDetails => match lang {
            Lang::RU => String::from_str("ИНСТРУКЦИЯ:\nПрограмма собирает код из монорепозитория в один текстовый файл.\nПоддерживаются превью (--preview), исключения (--exclude), выбор конкретных папок (--only-dirs) и настройки конфигурации."),
            Lang::EN => String::from_str("INSTRUCTIONS:\nCollects code from monorepo into a single text file.\nSupports preview (--preview), exclusions (--exclude), specific folders (--only-dirs) and config settings."),
            Lang::ZH => String::from_str("说明:\n从 monorepo 收集代码到单个文本文件。\n支持预览 (--preview)、排除 (--exclude)、特定文件夹 (--only-dirs) 和配置设置."),
        },
    }
}

/// The language that an upper-case language name stands for: its code, or
/// its Russian name.
pub open spec fn lang_named(u: Seq<char>) -> Option<Lang> {
    if u == "RU"@ || u == "РУ"@ {
        Some(Lang::RU)
    } else if u == "EN"@ || u == "АНГЛ"@ {
        Some(Lang::EN)
    } else if u == "ZH"@ || u == "КИТ"@ {
        Some(Lang::ZH)
    } else {
        None
    }
}

/// The language that an upper-case language name stands for.
pub fn lang_from_upper(u: &str) -> (r: Option<Lang>)
    ensures
        r == lang_named(u@),
{
    if str_eq(u, "RU") || str_eq(u, "РУ") {
        Some(Lang::RU)
    } else if str_eq(u, "EN") || str_eq(u, "АНГЛ") {
        Some(Lang::EN)
    } else if str_eq(u, "ZH") || str_eq(u, "КИТ") {
        Some(Lang::ZH)
    } else {
        None
    }
}

/// The code of a language, as its `Debug` output writes it.
pub open spec fn lang_code(l: Lang) -> Seq<char> {
    match l {
        Lang::RU => "RU"@,
        Lang::EN => "EN"@,
        Lang::ZH => "ZH"@,
    }
}

/// Every character mapped to ASCII lower case.
pub open spec fn ascii_lower_all(s: Seq<char>) -> Seq<char> {
    Seq::new(s.len(), |i: int| ascii_lower(s[i]))
}

proof fn lemma_code_round_trip(l: Lang)
    ensures
        all_ascii(lang_code(l)),
        all_ascii(ascii_lower_all(lang_code(l))),
        ascii_upper_all(lang_code(l)) == lang_code(l),
        ascii_upper_all(ascii_lower_all(lang_code(l))) == lang_code(l),
        lang_named(lang_code(l)) == Some(l),
{
    reveal_strlit("RU");
    reveal_strlit("РУ");
    reveal_strlit("EN");
    reveal_strlit("АНГЛ");
    reveal_strlit("ZH");
    assert("EN"@[0] != "RU"@[0] && "EN"@[0] != "РУ"@[0]);
    assert("ZH"@[0] != "RU"@[0] && "ZH"@[0] != "РУ"@[0]);
    assert("ZH"@[0] != "EN"@[0] && "ZH"@[0] != "АНГЛ"@[0]);
    let c = lang_code(l);
    assert(ascii_upper_all(c) =~= c);
    assert(ascii_upper_all(ascii_lower_all(c)) =~= c);
}

/// A language name read in any case, or the error message that names it.
pub open spec fn lang_of(s: Seq<char>) -> Result<Lang, Seq<char>> {
    match lang_named(uppercase(s)) {
        Some(l) => Ok(l),
        None => Err("Invalid language: "@ + s),
    }
}

/// Reads a language name in any case.
pub fn parse_lang(s: &str) -> (r: Result<Lang, String>)
    ensures
        match r {
            Ok(l) => lang_of(s@) == Ok::<Lang, Seq<char>>(l),
            Err(e) => lang_of(s@) == Err::<Lang, Seq<char>>(e@),
        },
        forall|l: Lang|
            #![trigger lang_code(l)]
            s@ == lang_code(l) || s@ == ascii_lower_all(lang_code(l)) ==> (r matches Ok(x) && x == l),
{
    let u = to_uppercase(s);
    let r = match lang_from_upper(u.as_str()) {
        Some(l) => Ok(l),
        None => Err(str_concat("Invalid language: ", s)),
    };
    assert forall|l: Lang|
        #![trigger lang_code(l)]
        s@ == lang_code(l) || s@ == ascii_lower_all(lang_code(l)) implies (r matches Ok(x) && x == l) by {
        lemma_code_round_trip(l);
    }
    r
}

impl std::str::FromStr for Lang {
    type Err = String;

    fn from_str(s: &str) -> (r: Result<Lang, String>)
        ensures
            match r {
                Ok(l) => lang_of(s@) == Ok::<Lang, Seq<char>>(l),
                Err(e) => lang_of(s@) == Err::<Lang, Seq<char>>(e@),
            },
            forall|l: Lang|
                #![trigger lang_code(l)]
                s@ == lang_code(l) || s@ == ascii_lower_all(lang_code(l)) ==> (r matches Ok(x) && x == l),
    {
        parse_lang(s)
    }
}

} // verus!
