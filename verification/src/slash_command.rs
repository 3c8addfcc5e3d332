//! The slash commands of the composer: their names, aliases, descriptions,
//! and the rules that decide where each command is available.
use vstd::prelude::*;

use crate::text::str_eq;

verus! {

/// Commands that can be invoked by starting a message with a leading slash.
///
/// The declaration order is the presentation order in the popup, so more
/// frequently used commands are listed first.
#[derive(Debug, Clone, Copy, PartialEq, Eq, Hash, Structural)]
pub enum SlashCommand {
    Model,
    Ide,
    Permissions,
    Keymap,
    Vim,
    ElevateSandbox,
    SandboxReadRoot,
    Experimental,
    AutoReview,
    Memories,
    Skills,
    Hooks,
    Review,
    Rename,
    New,
    Resume,
    Fork,
    Init,
    Compact,
    Plan,
    Goal,
    Agent,
    Side,
    Btw,
    Copy,
    Raw,
    Diff,
    Mention,
    Status,
    DebugConfig,
    Title,
    Statusline,
    Theme,
    Pets,
    Mcp,
    Apps,
    Plugins,
    Logout,
    Quit,
    Exit,
    Feedback,
    Rollout,
    Ps,
    Stop,
    Clear,
    Personality,
    Realtime,
    Settings,
    TestApproval,
    MultiAgents,
    MemoryDrop,
    MemoryUpdate,
}

/// The facts about the build that decide which commands are shown.
#[derive(Debug, Clone, Copy, PartialEq, Eq)]
pub struct BuildTarget {
    /// The program was built for Windows.
    pub windows: bool,
    /// The program was built for Android.
    pub android: bool,
    /// The program was built with debug assertions.
    pub debug_assertions: bool,
}

/// Every command, in presentation order.
pub open spec fn all_commands() -> Seq<SlashCommand> {
    seq![
        SlashCommand::Model,
        SlashCommand::Ide,
        SlashCommand::Permissions,
        SlashCommand::Keymap,
        SlashCommand::Vim,
        SlashCommand::ElevateSandbox,
        SlashCommand::SandboxReadRoot,
        SlashCommand::Experimental,
        SlashCommand::AutoReview,
        SlashCommand::Memories,
        SlashCommand::Skills,
        SlashCommand::Hooks,
        SlashCommand::Review,
        SlashCommand::Rename,
        SlashCommand::New,
        SlashCommand::Resume,
        SlashCommand::Fork,
        SlashCommand::Init,
        SlashCommand::Compact,
        SlashCommand::Plan,
        SlashCommand::Goal,
        SlashCommand::Agent,
        SlashCommand::Side,
        SlashCommand::Btw,
        SlashCommand::Copy,
        SlashCommand::Raw,
        SlashCommand::Diff,
        SlashCommand::Mention,
        SlashCommand::Status,
        SlashCommand::DebugConfig,
        SlashCommand::Title,
        SlashCommand::Statusline,
        SlashCommand::Theme,
        SlashCommand::Pets,
        SlashCommand::Mcp,
        SlashCommand::Apps,
        SlashCommand::Plugins,
        SlashCommand::Logout,
        SlashCommand::Quit,
        SlashCommand::Exit,
        SlashCommand::Feedback,
        SlashCommand::Rollout,
        SlashCommand::Ps,
        SlashCommand::Stop,
        SlashCommand::Clear,
        SlashCommand::Personality,
        SlashCommand::Realtime,
        SlashCommand::Settings,
        SlashCommand::TestApproval,
        SlashCommand::MultiAgents,
        SlashCommand::MemoryDrop,
        SlashCommand::MemoryUpdate,
    ]
}

/// The command that `s` names, if any: `s` is its name or one of its aliases.
pub open spec fn parsed_command(s: Seq<char>) -> Option<SlashCommand> {
    if exists|c: SlashCommand| c.is_spelling(s) {
        Some(choose|c: SlashCommand| c.is_spelling(s))
    } else {
        None
    }
}

impl SlashCommand {
    /// The command's name, typed after the leading '/'.
    pub open spec fn name(self) -> Seq<char> {
        match self {
            SlashCommand::Model => "model"@,
            SlashCommand::Ide => "ide"@,
            SlashCommand::Permissions => "permissions"@,
            SlashCommand::Keymap => "keymap"@,
            SlashCommand::Vim => "vim"@,
            SlashCommand::ElevateSandbox => "setup-default-sandbox"@,
            SlashCommand::SandboxReadRoot => "sandbox-add-read-dir"@,
            SlashCommand::Experimental => "experimental"@,
            SlashCommand::AutoReview => "approve"@,
            SlashCommand::Memories => "memories"@,
            SlashCommand::Skills => "skills"@,
            SlashCommand::Hooks => "hooks"@,
            SlashCommand::Review => "review"@,
            SlashCommand::Rename => "rename"@,
            SlashCommand::New => "new"@,
            SlashCommand::Resume => "resume"@,
            SlashCommand::Fork => "fork"@,
            SlashCommand::Init => "init"@,
            SlashCommand::Compact => "compact"@,
            SlashCommand::Plan => "plan"@,
            SlashCommand::Goal => "goal"@,
            SlashCommand::Agent => "agent"@,
            SlashCommand::Side => "side"@,
            SlashCommand::Btw => "btw"@,
            SlashCommand::Copy => "copy"@,
            SlashCommand::Raw => "raw"@,
            SlashCommand::Diff => "diff"@,
            SlashCommand::Mention => "mention"@,
            SlashCommand::Status => "status"@,
            SlashCommand::DebugConfig => "debug-config"@,
            SlashCommand::Title => "title"@,
            SlashCommand::Statusline => "statusline"@,
            SlashCommand::Theme => "theme"@,
            SlashCommand::Pets => "pets"@,
            SlashCommand::Mcp => "mcp"@,
            SlashCommand::Apps => "apps"@,
            SlashCommand::Plugins => "plugins"@,
            SlashCommand::Logout => "logout"@,
            SlashCommand::Quit => "quit"@,
            SlashCommand::Exit => "exit"@,
            SlashCommand::Feedback => "feedback"@,
            SlashCommand::Rollout => "rollout"@,
            SlashCommand::Ps => "ps"@,
            SlashCommand::Stop => "stop"@,
            SlashCommand::Clear => "clear"@,
            SlashCommand::Personality => "personality"@,
            SlashCommand::Realtime => "realtime"@,
            SlashCommand::Settings => "settings"@,
            SlashCommand::TestApproval => "test-approval"@,
            SlashCommand::MultiAgents => "subagents"@,
            SlashCommand::MemoryDrop => "debug-m-drop"@,
            SlashCommand::MemoryUpdate => "debug-m-update"@,
        }
    }

    /// `s` parses to this command: it is the command's name or an alias of it.
    pub open spec fn is_spelling(self, s: Seq<char>) -> bool {
        ||| s == self.name()
        ||| self == SlashCommand::Pets && s == "pet"@
        ||| self == SlashCommand::Stop && s == "clean"@
    }

    /// The user-visible description shown in the popup.
    pub open spec fn description_text(self) -> Seq<char> {
        match self {
            SlashCommand::Model => "выбрать модель и уровень reasoning"@,
            SlashCommand::Ide => "подтянуть текущее выделение, открытые файлы и другой контекст из вашей IDE"@,
            SlashCommand::Permissions => "выбрать что ОЗАРНИК разрешено делать"@,
            SlashCommand::Keymap => "переназначить горячие клавиши TUI"@,
            SlashCommand::Vim => "переключить Vim-режим в редакторе ввода"@,
            SlashCommand::ElevateSandbox => "настроить песочницу с повышенными правами"@,
            SlashCommand::SandboxReadRoot => "разрешить песочнице читать директорию: /sandbox-add-read-dir <абсолютный_путь>"@,
            SlashCommand::Experimental => "переключить экспериментальные функции"@,
            SlashCommand::AutoReview => "одобрить один повтор недавнего auto-review отказа"@,
            SlashCommand::Memories => "настроить использование и генерацию памяти"@,
            SlashCommand::Skills => "использовать навыки для улучшения работы ОЗАРНИК над конкретными задачами"@,
            SlashCommand::Hooks => "посмотреть и настроить lifecycle-хуки"@,
            SlashCommand::Review => "проверить текущие изменения и найти проблемы"@,
            SlashCommand::Rename => "переименовать текущий тред"@,
            SlashCommand::New => "начать новый чат во время разговора"@,
            SlashCommand::Resume => "возобновить сохранённый чат"@,
            SlashCommand::Fork => "разветвить текущий чат"@,
            SlashCommand::Init => "создать файл AGENTS.md с инструкциями для ОЗАРНИК"@,
            SlashCommand::Compact => "сжать переписку, чтобы не упереться в лимит контекста"@,
            SlashCommand::Plan => "перейти в режим Plan"@,
            SlashCommand::Goal => "задать или посмотреть цель для долгой задачи"@,
            SlashCommand::Agent => "переключить активный agent-тред"@,
            SlashCommand::Side => "начать побочный разговор в эфемерном форке"@,
            SlashCommand::Btw => "начать побочный разговор в эфемерном форке"@,
            SlashCommand::Copy => "скопировать последний ответ в markdown"@,
            SlashCommand::Raw => "переключить raw-режим прокрутки для удобного выделения мышью"@,
            SlashCommand::Diff => "показать git diff (включая неотслеживаемые файлы)"@,
            SlashCommand::Mention => "упомянуть файл"@,
            SlashCommand::Status => "показать настройки сессии и использование токенов"@,
            SlashCommand::DebugConfig => "показать слои конфига и источники требований (для отладки)"@,
            SlashCommand::Title => "настроить что показывать в заголовке терминала"@,
            SlashCommand::Statusline => "настроить что показывать в строке статуса"@,
            SlashCommand::Theme => "выбрать тему подсветки синтаксиса"@,
            SlashCommand::Pets => "выбрать или скрыть питомца в терминале"@,
            SlashCommand::Mcp => "список настроенных MCP-инструментов; /mcp verbose для подробностей"@,
            SlashCommand::Apps => "управление приложениями"@,
            SlashCommand::Plugins => "просмотр плагинов"@,
            SlashCommand::Logout => "выйти из ОЗАРНИК"@,
            SlashCommand::Quit => "выйти из ОЗАРНИК"@,
            SlashCommand::Exit => "выйти из ОЗАРНИК"@,
            SlashCommand::Feedback => "отправить логи разработчикам"@,
            SlashCommand::Rollout => "показать путь к rollout-файлу"@,
            SlashCommand::Ps => "список фоновых терминалов"@,
            SlashCommand::Stop => "остановить все фоновые терминалы"@,
            SlashCommand::Clear => "очистить терминал и начать новый чат"@,
            SlashCommand::Personality => "выбрать стиль общения ОЗАРНИК"@,
            SlashCommand::Realtime => "переключить голосовой режим (экспериментально)"@,
            SlashCommand::Settings => "настроить микрофон/динамик realtime"@,
            SlashCommand::TestApproval => "тестовый запрос подтверждения"@,
            SlashCommand::MultiAgents => "переключить активный agent-тред"@,
            SlashCommand::MemoryDrop => "НЕ ИСПОЛЬЗОВАТЬ"@,
            SlashCommand::MemoryUpdate => "НЕ ИСПОЛЬЗОВАТЬ"@,
        }
    }

    /// Commands that accept text after their name (for example `/review ...`).
    pub open spec fn takes_inline_args(self) -> bool {
        match self {
            SlashCommand::Review
            | SlashCommand::Rename
            | SlashCommand::Plan
            | SlashCommand::Goal
            | SlashCommand::Ide
            | SlashCommand::Keymap
            | SlashCommand::Mcp
            | SlashCommand::Raw
            | SlashCommand::Pets
            | SlashCommand::Side
            | SlashCommand::Btw
            | SlashCommand::Resume
            | SlashCommand::SandboxReadRoot => true,
            _ => false,
        }
    }

    /// Commands that stay available inside an active side conversation.
    pub open spec fn usable_in_side_conversation(self) -> bool {
        match self {
            SlashCommand::Copy
            | SlashCommand::Raw
            | SlashCommand::Diff
            | SlashCommand::Mention
            | SlashCommand::Status
            | SlashCommand::Ide => true,
            _ => false,
        }
    }

    /// Commands that can be run while a task is in progress.
    pub open spec fn usable_during_task(self) -> bool {
        match self {
            SlashCommand::New
            | SlashCommand::Resume
            | SlashCommand::Fork
            | SlashCommand::Init
            | SlashCommand::Compact
            | SlashCommand::Model
            | SlashCommand::Personality
            | SlashCommand::Permissions
            | SlashCommand::Keymap
            | SlashCommand::Vim
            | SlashCommand::ElevateSandbox
            | SlashCommand::SandboxReadRoot
            | SlashCommand::Experimental
            | SlashCommand::Memories
            | SlashCommand::Review
            | SlashCommand::Plan
            | SlashCommand::Clear
            | SlashCommand::Logout
            | SlashCommand::MemoryDrop
            | SlashCommand::MemoryUpdate
            | SlashCommand::Theme
            | SlashCommand::Pets => false,
            _ => true,
        }
    }

    /// Commands shown in the popup for a build.
    pub open spec fn visible_on(self, target: BuildTarget) -> bool {
        match self {
            SlashCommand::SandboxReadRoot => target.windows,
            SlashCommand::Copy => !target.android,
            SlashCommand::Rollout | SlashCommand::TestApproval => target.debug_assertions,
            _ => true,
        }
    }

    /// User-visible description shown in the popup.
    pub fn description(self) -> (r: &'static str)
        ensures
            r@ == self.description_text(),
    {
        match self {
            SlashCommand::Model => "выбрать модель и уровень reasoning",
            SlashCommand::Ide => "подтянуть текущее выделение, открытые файлы и другой контекст из вашей IDE",
            SlashCommand::Permissions => "выбрать что ОЗАРНИК разрешено делать",
            SlashCommand::Keymap => "переназначить горячие клавиши TUI",
            SlashCommand::Vim => "переключить Vim-режим в редакторе ввода",
            SlashCommand::ElevateSandbox => "настроить песочницу с повышенными правами",
            SlashCommand::SandboxReadRoot => "разрешить песочнице читать директорию: /sandbox-add-read-dir <абсолютный_путь>",
            SlashCommand::Experimental => "переключить экспериментальные функции",
            SlashCommand::AutoReview => "одобрить один повтор недавнего auto-review отказа",
            SlashCommand::Memories => "настроить использование и генерацию памяти",
            SlashCommand::Skills => "использовать навыки для улучшения работы ОЗАРНИК над конкретными задачами",
            SlashCommand::Hooks => "посмотреть и настроить lifecycle-хуки",
            SlashCommand::Review => "проверить текущие изменения и найти проблемы",
            SlashCommand::Rename => "переименовать текущий тред",
            SlashCommand::New => "начать новый чат во время разговора",
            SlashCommand::Resume => "возобновить сохранённый чат",
            SlashCommand::Fork => "разветвить текущий чат",
            SlashCommand::Init => "создать файл AGENTS.md с инструкциями для ОЗАРНИК",
            SlashCommand::Compact => "сжать переписку, чтобы не упереться в лимит контекста",
            SlashCommand::Plan => "перейти в режим Plan",
            SlashCommand::Goal => "задать или посмотреть цель для долгой задачи",
            SlashCommand::Agent => "переключить активный agent-тред",
            SlashCommand::Side => "начать побочный разговор в эфемерном форке",
            SlashCommand::Btw => "начать побочный разговор в эфемерном форке",
            SlashCommand::Copy => "скопировать последний ответ в markdown",
            SlashCommand::Raw => "переключить raw-режим прокрутки для удобного выделения мышью",
            SlashCommand::Diff => "показать git diff (включая неотслеживаемые файлы)",
            SlashCommand::Mention => "упомянуть файл",
            SlashCommand::Status => "показать настройки сессии и использование токенов",
            SlashCommand::DebugConfig => "показать слои конфига и источники требований (для отладки)",
            SlashCommand::Title => "настроить что показывать в заголовке терминала",
            SlashCommand::Statusline => "настроить что показывать в строке статуса",
            SlashCommand::Theme => "выбрать тему подсветки синтаксиса",
            SlashCommand::Pets => "выбрать или скрыть питомца в терминале",
            SlashCommand::Mcp => "список настроенных MCP-инструментов; /mcp verbose для подробностей",
            SlashCommand::Apps => "управление приложениями",
            SlashCommand::Plugins => "просмотр плагинов",
            SlashCommand::Logout => "выйти из ОЗАРНИК",
            SlashCommand::Quit => "выйти из ОЗАРНИК",
            SlashCommand::Exit => "выйти из ОЗАРНИК",
            SlashCommand::Feedback => "отправить логи разработчикам",
            SlashCommand::Rollout => "показать путь к rollout-файлу",
            SlashCommand::Ps => "список фоновых терминалов",
            SlashCommand::Stop => "остановить все фоновые терминалы",
            SlashCommand::Clear => "очистить терминал и начать новый чат",
            SlashCommand::Personality => "выбрать стиль общения ОЗАРНИК",
            SlashCommand::Realtime => "переключить голосовой режим (экспериментально)",
            SlashCommand::Settings => "настроить микрофон/динамик realtime",
            SlashCommand::TestApproval => "тестовый запрос подтверждения",
            SlashCommand::MultiAgents => "переключить активный agent-тред",
            SlashCommand::MemoryDrop => "НЕ ИСПОЛЬЗОВАТЬ",
            SlashCommand::MemoryUpdate => "НЕ ИСПОЛЬЗОВАТЬ",
        }
    }

    /// Command string without the leading '/'.
    pub fn command(self) -> (r: &'static str)
        ensures
            r@ == self.name(),
    {
        match self {
            SlashCommand::Model => "model",
            SlashCommand::Ide => "ide",
            SlashCommand::Permissions => "permissions",
            SlashCommand::Keymap => "keymap",
            SlashCommand::Vim => "vim",
            SlashCommand::ElevateSandbox => "setup-default-sandbox",
            SlashCommand::SandboxReadRoot => "sandbox-add-read-dir",
            SlashCommand::Experimental => "experimental",
            SlashCommand::AutoReview => "approve",
            SlashCommand::Memories => "memories",
            SlashCommand::Skills => "skills",
            SlashCommand::Hooks => "hooks",
            SlashCommand::Review => "review",
            SlashCommand::Rename => "rename",
            SlashCommand::New => "new",
            SlashCommand::Resume => "resume",
            SlashCommand::Fork => "fork",
            SlashCommand::Init => "init",
            SlashCommand::Compact => "compact",
            SlashCommand::Plan => "plan",
            SlashCommand::Goal => "goal",
            SlashCommand::Agent => "agent",
            SlashCommand::Side => "side",
            SlashCommand::Btw => "btw",
            SlashCommand::Copy => "copy",
            SlashCommand::Raw => "raw",
            SlashCommand::Diff => "diff",
            SlashCommand::Mention => "mention",
            SlashCommand::Status => "status",
            SlashCommand::DebugConfig => "debug-config",
            SlashCommand::Title => "title",
            SlashCommand::Statusline => "statusline",
            SlashCommand::Theme => "theme",
            SlashCommand::Pets => "pets",
            SlashCommand::Mcp => "mcp",
            SlashCommand::Apps => "apps",
            SlashCommand::Plugins => "plugins",
            SlashCommand::Logout => "logout",
            SlashCommand::Quit => "quit",
            SlashCommand::Exit => "exit",
            SlashCommand::Feedback => "feedback",
            SlashCommand::Rollout => "rollout",
            SlashCommand::Ps => "ps",
            SlashCommand::Stop => "stop",
            SlashCommand::Clear => "clear",
            SlashCommand::Personality => "personality",
            SlashCommand::Realtime => "realtime",
            SlashCommand::Settings => "settings",
            SlashCommand::TestApproval => "test-approval",
            SlashCommand::MultiAgents => "subagents",
            SlashCommand::MemoryDrop => "debug-m-drop",
            SlashCommand::MemoryUpdate => "debug-m-update",
        }
    }

    /// The command that `s` names, by its name or an alias; `None` when no
    /// command is spelled `s`. Matching is exact and case-sensitive.
    pub fn from_name(s: &str) -> (r: Option<SlashCommand>)
        ensures
            r == parsed_command(s@),
    {
        let r = if str_eq(s, "model") {
            Some(SlashCommand::Model)
        } else if str_eq(s, "ide") {
            Some(SlashCommand::Ide)
        } else if str_eq(s, "permissions") {
            Some(SlashCommand::Permissions)
        } else if str_eq(s, "keymap") {
            Some(SlashCommand::Keymap)
        } else if str_eq(s, "vim") {
            Some(SlashCommand::Vim)
        } else if str_eq(s, "setup-default-sandbox") {
            Some(SlashCommand::ElevateSandbox)
        } else if str_eq(s, "sandbox-add-read-dir") {
            Some(SlashCommand::SandboxReadRoot)
        } else if str_eq(s, "experimental") {
            Some(SlashCommand::Experimental)
        } else if str_eq(s, "approve") {
            Some(SlashCommand::AutoReview)
        } else if str_eq(s, "memories") {
            Some(SlashCommand::Memories)
        } else if str_eq(s, "skills") {
            Some(SlashCommand::Skills)
        } else if str_eq(s, "hooks") {
            Some(SlashCommand::Hooks)
        } else if str_eq(s, "review") {
            Some(SlashCommand::Review)
        } else if str_eq(s, "rename") {
            Some(SlashCommand::Rename)
        } else if str_eq(s, "new") {
            Some(SlashCommand::New)
        } else if str_eq(s, "resume") {
            Some(SlashCommand::Resume)
        } else if str_eq(s, "fork") {
            Some(SlashCommand::Fork)
        } else if str_eq(s, "init") {
            Some(SlashCommand::Init)
        } else if str_eq(s, "compact") {
            Some(SlashCommand::Compact)
        } else if str_eq(s, "plan") {
            Some(SlashCommand::Plan)
        } else if str_eq(s, "goal") {
            Some(SlashCommand::Goal)
        } else if str_eq(s, "agent") {
            Some(SlashCommand::Agent)
        } else if str_eq(s, "side") {
            Some(SlashCommand::Side)
        } else if str_eq(s, "btw") {
            Some(SlashCommand::Btw)
        } else if str_eq(s, "copy") {
            Some(SlashCommand::Copy)
        } else if str_eq(s, "raw") {
            Some(SlashCommand::Raw)
        } else if str_eq(s, "diff") {
            Some(SlashCommand::Diff)
        } else if str_eq(s, "mention") {
            Some(SlashCommand::Mention)
        } else if str_eq(s, "status") {
            Some(SlashCommand::Status)
        } else if str_eq(s, "debug-config") {
            Some(SlashCommand::DebugConfig)
        } else if str_eq(s, "title") {
            Some(SlashCommand::Title)
        } else if str_eq(s, "statusline") {
            Some(SlashCommand::Statusline)
        } else if str_eq(s, "theme") {
            Some(SlashCommand::Theme)
        } else if str_eq(s, "pet") {
            Some(SlashCommand::Pets)
        } else if str_eq(s, "pets") {
            Some(SlashCommand::Pets)
        } else if str_eq(s, "mcp") {
            Some(SlashCommand::Mcp)
        } else if str_eq(s, "apps") {
            Some(SlashCommand::Apps)
        } else if str_eq(s, "plugins") {
            Some(SlashCommand::Plugins)
        } else if str_eq(s, "logout") {
            Some(SlashCommand::Logout)
        } else if str_eq(s, "quit") {
            Some(SlashCommand::Quit)
        } else if str_eq(s, "exit") {
            Some(SlashCommand::Exit)
        } else if str_eq(s, "feedback") {
            Some(SlashCommand::Feedback)
        } else if str_eq(s, "rollout") {
            Some(SlashCommand::Rollout)
        } else if str_eq(s, "ps") {
            Some(SlashCommand::Ps)
        } else if str_eq(s, "clean") {
            Some(SlashCommand::Stop)
        } else if str_eq(s, "stop") {
            Some(SlashCommand::Stop)
        } else if str_eq(s, "clear") {
            Some(SlashCommand::Clear)
        } else if str_eq(s, "personality") {
            Some(SlashCommand::Personality)
        } else if str_eq(s, "realtime") {
            Some(SlashCommand::Realtime)
        } else if str_eq(s, "settings") {
            Some(SlashCommand::Settings)
        } else if str_eq(s, "test-approval") {
            Some(SlashCommand::TestApproval)
        } else if str_eq(s, "subagents") {
            Some(SlashCommand::MultiAgents)
        } else if str_eq(s, "debug-m-drop") {
            Some(SlashCommand::MemoryDrop)
        } else if str_eq(s, "debug-m-update") {
            Some(SlashCommand::MemoryUpdate)
        } else {
            None
        };
        proof {
            match r {
                Some(c) => {
                    assert(c.is_spelling(s@));
                    let d = choose|d: SlashCommand| d.is_spelling(s@);
                    lemma_spellings_are_unique(c, d, s@);
                },
                None => {
                    assert forall|c: SlashCommand| !c.is_spelling(s@) by {}
                },
            }
        }
        r
    }

    /// Whether this command supports inline args (for example `/review ...`).
    pub fn supports_inline_args(self) -> (r: bool)
        ensures
            r == self.takes_inline_args(),
    {
        match self {
            SlashCommand::Review
            | SlashCommand::Rename
            | SlashCommand::Plan
            | SlashCommand::Goal
            | SlashCommand::Ide
            | SlashCommand::Keymap
            | SlashCommand::Mcp
            | SlashCommand::Raw
            | SlashCommand::Pets
            | SlashCommand::Side
            | SlashCommand::Btw
            | SlashCommand::Resume
            | SlashCommand::SandboxReadRoot => true,
            _ => false,
        }
    }

    /// Whether this command remains available inside an active side conversation.
    pub fn available_in_side_conversation(self) -> (r: bool)
        ensures
            r == self.usable_in_side_conversation(),
    {
        match self {
            SlashCommand::Copy
            | SlashCommand::Raw
            | SlashCommand::Diff
            | SlashCommand::Mention
            | SlashCommand::Status
            | SlashCommand::Ide => true,
            _ => false,
        }
    }

    /// Whether this command can be run while a task is in progress.
    pub fn available_during_task(self) -> (r: bool)
        ensures
            r == self.usable_during_task(),
    {
        match self {
            SlashCommand::New
            | SlashCommand::Resume
            | SlashCommand::Fork
            | SlashCommand::Init
            | SlashCommand::Compact
            | SlashCommand::Model
            | SlashCommand::Personality
            | SlashCommand::Permissions
            | SlashCommand::Keymap
            | SlashCommand::Vim
            | SlashCommand::ElevateSandbox
            | SlashCommand::SandboxReadRoot
            | SlashCommand::Experimental
            | SlashCommand::Memories
            | SlashCommand::Review
            | SlashCommand::Plan
            | SlashCommand::Clear
            | SlashCommand::Logout
            | SlashCommand::MemoryDrop
            | SlashCommand::MemoryUpdate => false,
            SlashCommand::Diff
            | SlashCommand::Copy
            | SlashCommand::Raw
            | SlashCommand::Rename
            | SlashCommand::Mention
            | SlashCommand::Skills
            | SlashCommand::Hooks
            | SlashCommand::Status
            | SlashCommand::DebugConfig
            | SlashCommand::Ps
            | SlashCommand::Stop
            | SlashCommand::Goal
            | SlashCommand::Mcp
            | SlashCommand::Apps
            | SlashCommand::Plugins
            | SlashCommand::Title
            | SlashCommand::Statusline
            | SlashCommand::AutoReview
            | SlashCommand::Feedback
            | SlashCommand::Ide
            | SlashCommand::Quit
            | SlashCommand::Exit
            | SlashCommand::Side
            | SlashCommand::Btw => true,
            SlashCommand::Rollout => true,
            SlashCommand::TestApproval => true,
            SlashCommand::Realtime => true,
            SlashCommand::Settings => true,
            SlashCommand::Agent | SlashCommand::MultiAgents => true,
            SlashCommand::Theme | SlashCommand::Pets => false,
        }
    }

    /// Whether this command is shown in the popup of a program built for `target`.
    pub fn is_visible(self, target: BuildTarget) -> (r: bool)
        ensures
            r == self.visible_on(target),
    {
        match self {
            SlashCommand::SandboxReadRoot => target.windows,
            SlashCommand::Copy => !target.android,
            SlashCommand::Rollout | SlashCommand::TestApproval => target.debug_assertions,
            _ => true,
        }
    }

    /// Every command, in presentation order.
    pub fn all() -> (r: Vec<SlashCommand>)
        ensures
            r@ == all_commands(),
    {
        let r = vec![
            SlashCommand::Model,
            SlashCommand::Ide,
            SlashCommand::Permissions,
            SlashCommand::Keymap,
            SlashCommand::Vim,
            SlashCommand::ElevateSandbox,
            SlashCommand::SandboxReadRoot,
            SlashCommand::Experimental,
            SlashCommand::AutoReview,
            SlashCommand::Memories,
            SlashCommand::Skills,
            SlashCommand::Hooks,
            SlashCommand::Review,
            SlashCommand::Rename,
            SlashCommand::New,
            SlashCommand::Resume,
            SlashCommand::Fork,
            SlashCommand::Init,
            SlashCommand::Compact,
            SlashCommand::Plan,
            SlashCommand::Goal,
            SlashCommand::Agent,
            SlashCommand::Side,
            SlashCommand::Btw,
            SlashCommand::Copy,
            SlashCommand::Raw,
            SlashCommand::Diff,
            SlashCommand::Mention,
            SlashCommand::Status,
            SlashCommand::DebugConfig,
            SlashCommand::Title,
            SlashCommand::Statusline,
            SlashCommand::Theme,
            SlashCommand::Pets,
            SlashCommand::Mcp,
            SlashCommand::Apps,
            SlashCommand::Plugins,
            SlashCommand::Logout,
            SlashCommand::Quit,
            SlashCommand::Exit,
            SlashCommand::Feedback,
            SlashCommand::Rollout,
            SlashCommand::Ps,
            SlashCommand::Stop,
            SlashCommand::Clear,
            SlashCommand::Personality,
            SlashCommand::Realtime,
            SlashCommand::Settings,
            SlashCommand::TestApproval,
            SlashCommand::MultiAgents,
            SlashCommand::MemoryDrop,
            SlashCommand::MemoryUpdate,
        ];
        r
    }
}

/// The error type of strum's derived `FromStr`, carried through as is.
#[verifier::external_type_specification]
#[verifier::external_body]
pub struct ExStrumParseError(strum::ParseError);

/// Builds `strum::ParseError::VariantNotFound`, the error strum's derived
/// `FromStr` returns for a string that names no variant. Nothing is claimed
/// of the value.
#[verifier::external_body]
fn variant_not_found() -> strum::ParseError {
    strum::ParseError::VariantNotFound
}

impl core::str::FromStr for SlashCommand {
    type Err = strum::ParseError;

    /// Parses a command by its name or an alias, as `SlashCommand::from_name`.
    fn from_str(s: &str) -> (r: Result<SlashCommand, strum::ParseError>)
        ensures
            match r {
                Ok(c) => parsed_command(s@) == Some(c),
                Err(_) => parsed_command(s@) is None,
            },
    {
        match SlashCommand::from_name(s) {
            Some(c) => Ok(c),
            None => Err(variant_not_found()),
        }
    }
}

/// The commands shown on `target`, in presentation order.
pub open spec fn visible_commands(target: BuildTarget) -> Seq<SlashCommand> {
    all_commands().filter(shown_on(target))
}

/// The predicate "shown on `target`".
pub open spec fn shown_on(target: BuildTarget) -> spec_fn(SlashCommand) -> bool {
    |c: SlashCommand| c.visible_on(target)
}

/// Return all built-in commands shown on `target`, in presentation order,
/// each paired with its command string.
pub fn built_in_slash_commands(target: BuildTarget) -> (r: Vec<(&'static str, SlashCommand)>)
    ensures
        r@.len() == visible_commands(target).len(),
        forall|i: int|
            0 <= i < r@.len() ==> {
                &&& (#[trigger] r@[i]).1 == visible_commands(target)[i]
                &&& r@[i].0@ == visible_commands(target)[i].name()
            },
{
    let commands = SlashCommand::all();
    let ghost pred = shown_on(target);
    let mut r: Vec<(&'static str, SlashCommand)> = Vec::new();
    let mut i: usize = 0;
    while i < commands.len()
        invariant
            i <= commands.len(),
            commands@ == all_commands(),
            pred == shown_on(target),
            r@.len() == commands@.take(i as int).filter(pred).len(),
            forall|j: int|
                0 <= j < r@.len() ==> {
                    &&& (#[trigger] r@[j]).1 == commands@.take(i as int).filter(pred)[j]
                    &&& r@[j].0@ == commands@.take(i as int).filter(pred)[j].name()
                },
        decreases commands.len() - i,
    {
        let c = commands[i];
        let ghost prev = commands@.take(i as int);
        let ghost next = commands@.take(i + 1);
        proof {
            assert(next.drop_last() =~= prev);
            assert(next.last() == c);
            reveal_with_fuel(Seq::<_>::filter, 1);
            assert(next.filter(pred) == if pred(c) {
                prev.filter(pred).push(c)
            } else {
                prev.filter(pred)
            });
        }
        if c.is_visible(target) {
            r.push((c.command(), c));
        }
        i = i + 1;
    }
    proof {
        assert(commands@.take(i as int) =~= commands@);
    }
    r
}

/// No two commands share a spelling: a name or alias parses to one command only.
pub proof fn lemma_spellings_are_unique(c1: SlashCommand, c2: SlashCommand, s: Seq<char>)
    requires
        c1.is_spelling(s),
        c2.is_spelling(s),
    ensures
        c1 == c2,
{
    reveal_strlit("model");
    assert("model"@.len() == 5 && "model"@[0] == 'm' && "model"@[1] == 'o' && "model"@[2] == 'd' && "model"@[3] == 'e' && "model"@[4] == 'l');
    reveal_strlit("ide");
    assert("ide"@.len() == 3 && "ide"@[0] == 'i' && "ide"@[1] == 'd' && "ide"@[2] == 'e');
    reveal_strlit("permissions");
    assert("permissions"@.len() == 11 && "permissions"@[0] == 'p' && "permissions"@[1] == 'e' && "permissions"@[2] == 'r' && "permissions"@[3] == 'm' && "permissions"@[4] == 'i' && "permissions"@[6] == 's');
    reveal_strlit("keymap");
    assert("keymap"@.len() == 6 && "keymap"@[0] == 'k' && "keymap"@[1] == 'e' && "keymap"@[2] == 'y' && "keymap"@[3] == 'm' && "keymap"@[4] == 'a');
    reveal_strlit("vim");
    assert("vim"@.len() == 3 && "vim"@[0] == 'v' && "vim"@[1] == 'i' && "vim"@[2] == 'm');
    reveal_strlit("setup-default-sandbox");
    assert("setup-default-sandbox"@.len() == 21 && "setup-default-sandbox"@[0] == 's' && "setup-default-sandbox"@[1] == 'e' && "setup-default-sandbox"@[2] == 't' && "setup-default-sandbox"@[3] == 'u' && "setup-default-sandbox"@[4] == 'p' && "setup-default-sandbox"@[6] == 'd');
    reveal_strlit("sandbox-add-read-dir");
    assert("sandbox-add-read-dir"@.len() == 20 && "sandbox-add-read-dir"@[0] == 's' && "sandbox-add-read-dir"@[1] == 'a' && "sandbox-add-read-dir"@[2] == 'n' && "sandbox-add-read-dir"@[3] == 'd' && "sandbox-add-read-dir"@[4] == 'b' && "sandbox-add-read-dir"@[6] == 'x');
    reveal_strlit("experimental");
    assert("experimental"@.len() == 12 && "experimental"@[0] == 'e' && "experimental"@[1] == 'x' && "experimental"@[2] == 'p' && "experimental"@[3] == 'e' && "experimental"@[4] == 'r' && "experimental"@[6] == 'm');
    reveal_strlit("approve");
    assert("approve"@.len() == 7 && "approve"@[0] == 'a' && "approve"@[1] == 'p' && "approve"@[2] == 'p' && "approve"@[3] == 'r' && "approve"@[4] == 'o' && "approve"@[6] == 'e');
    reveal_strlit("memories");
    assert("memories"@.len() == 8 && "memories"@[0] == 'm' && "memories"@[1] == 'e' && "memories"@[2] == 'm' && "memories"@[3] == 'o' && "memories"@[4] == 'r' && "memories"@[6] == 'e');
    reveal_strlit("skills");
    assert("skills"@.len() == 6 && "skills"@[0] == 's' && "skills"@[1] == 'k' && "skills"@[2] == 'i' && "skills"@[3] == 'l' && "skills"@[4] == 'l');
    reveal_strlit("hooks");
    assert("hooks"@.len() == 5 && "hooks"@[0] == 'h' && "hooks"@[1] == 'o' && "hooks"@[2] == 'o' && "hooks"@[3] == 'k' && "hooks"@[4] == 's');
    reveal_strlit("review");
    assert("review"@.len() == 6 && "review"@[0] == 'r' && "review"@[1] == 'e' && "review"@[2] == 'v' && "review"@[3] == 'i' && "review"@[4] == 'e');
    reveal_strlit("rename");
    assert("rename"@.len() == 6 && "rename"@[0] == 'r' && "rename"@[1] == 'e' && "rename"@[2] == 'n' && "rename"@[3] == 'a' && "rename"@[4] == 'm');
    reveal_strlit("new");
    assert("new"@.len() == 3 && "new"@[0] == 'n' && "new"@[1] == 'e' && "new"@[2] == 'w');
    reveal_strlit("resume");
    assert("resume"@.len() == 6 && "resume"@[0] == 'r' && "resume"@[1] == 'e' && "resume"@[2] == 's' && "resume"@[3] == 'u' && "resume"@[4] == 'm');
    reveal_strlit("fork");
    assert("fork"@.len() == 4 && "fork"@[0] == 'f' && "fork"@[1] == 'o' && "fork"@[2] == 'r' && "fork"@[3] == 'k');
    reveal_strlit("init");
    assert("init"@.len() == 4 && "init"@[0] == 'i' && "init"@[1] == 'n' && "init"@[2] == 'i' && "init"@[3] == 't');
    reveal_strlit("compact");
    assert("compact"@.len() == 7 && "compact"@[0] == 'c' && "compact"@[1] == 'o' && "compact"@[2] == 'm' && "compact"@[3] == 'p' && "compact"@[4] == 'a' && "compact"@[6] == 't');
    reveal_strlit("plan");
    assert("plan"@.len() == 4 && "plan"@[0] == 'p' && "plan"@[1] == 'l' && "plan"@[2] == 'a' && "plan"@[3] == 'n');
    reveal_strlit("goal");
    assert("goal"@.len() == 4 && "goal"@[0] == 'g' && "goal"@[1] == 'o' && "goal"@[2] == 'a' && "goal"@[3] == 'l');
    reveal_strlit("agent");
    assert("agent"@.len() == 5 && "agent"@[0] == 'a' && "agent"@[1] == 'g' && "agent"@[2] == 'e' && "agent"@[3] == 'n' && "agent"@[4] == 't');
    reveal_strlit("side");
    assert("side"@.len() == 4 && "side"@[0] == 's' && "side"@[1] == 'i' && "side"@[2] == 'd' && "side"@[3] == 'e');
    reveal_strlit("btw");
    assert("btw"@.len() == 3 && "btw"@[0] == 'b' && "btw"@[1] == 't' && "btw"@[2] == 'w');
    reveal_strlit("copy");
    assert("copy"@.len() == 4 && "copy"@[0] == 'c' && "copy"@[1] == 'o' && "copy"@[2] == 'p' && "copy"@[3] == 'y');
    reveal_strlit("raw");
    assert("raw"@.len() == 3 && "raw"@[0] == 'r' && "raw"@[1] == 'a' && "raw"@[2] == 'w');
    reveal_strlit("diff");
    assert("diff"@.len() == 4 && "diff"@[0] == 'd' && "diff"@[1] == 'i' && "diff"@[2] == 'f' && "diff"@[3] == 'f');
    reveal_strlit("mention");
    assert("mention"@.len() == 7 && "mention"@[0] == 'm' && "mention"@[1] == 'e' && "mention"@[2] == 'n' && "mention"@[3] == 't' && "mention"@[4] == 'i' && "mention"@[6] == 'n');
    reveal_strlit("status");
    assert("status"@.len() == 6 && "status"@[0] == 's' && "status"@[1] == 't' && "status"@[2] == 'a' && "status"@[3] == 't' && "status"@[4] == 'u');
    reveal_strlit("debug-config");
    assert("debug-config"@.len() == 12 && "debug-config"@[0] == 'd' && "debug-config"@[1] == 'e' && "debug-config"@[2] == 'b' && "debug-config"@[3] == 'u' && "debug-config"@[4] == 'g' && "debug-config"@[6] == 'c');
    reveal_strlit("title");
    assert("title"@.len() == 5 && "title"@[0] == 't' && "title"@[1] == 'i' && "title"@[2] == 't' && "title"@[3] == 'l' && "title"@[4] == 'e');
    reveal_strlit("statusline");
    assert("statusline"@.len() == 10 && "statusline"@[0] == 's' && "statusline"@[1] == 't' && "statusline"@[2] == 'a' && "statusline"@[3] == 't' && "statusline"@[4] == 'u' && "statusline"@[6] == 'l');
    reveal_strlit("theme");
    assert("theme"@.len() == 5 && "theme"@[0] == 't' && "theme"@[1] == 'h' && "theme"@[2] == 'e' && "theme"@[3] == 'm' && "theme"@[4] == 'e');
    reveal_strlit("pets");
    assert("pets"@.len() == 4 && "pets"@[0] == 'p' && "pets"@[1] == 'e' && "pets"@[2] == 't' && "pets"@[3] == 's');
    reveal_strlit("pet");
    assert("pet"@.len() == 3 && "pet"@[0] == 'p' && "pet"@[1] == 'e' && "pet"@[2] == 't');
    reveal_strlit("mcp");
    assert("mcp"@.len() == 3 && "mcp"@[0] == 'm' && "mcp"@[1] == 'c' && "mcp"@[2] == 'p');
    reveal_strlit("apps");
    assert("apps"@.len() == 4 && "apps"@[0] == 'a' && "apps"@[1] == 'p' && "apps"@[2] == 'p' && "apps"@[3] == 's');
    reveal_strlit("plugins");
    assert("plugins"@.len() == 7 && "plugins"@[0] == 'p' && "plugins"@[1] == 'l' && "plugins"@[2] == 'u' && "plugins"@[3] == 'g' && "plugins"@[4] == 'i' && "plugins"@[6] == 's');
    reveal_strlit("logout");
    assert("logout"@.len() == 6 && "logout"@[0] == 'l' && "logout"@[1] == 'o' && "logout"@[2] == 'g' && "logout"@[3] == 'o' && "logout"@[4] == 'u');
    reveal_strlit("quit");
    assert("quit"@.len() == 4 && "quit"@[0] == 'q' && "quit"@[1] == 'u' && "quit"@[2] == 'i' && "quit"@[3] == 't');
    reveal_strlit("exit");
    assert("exit"@.len() == 4 && "exit"@[0] == 'e' && "exit"@[1] == 'x' && "exit"@[2] == 'i' && "exit"@[3] == 't');
    reveal_strlit("feedback");
    assert("feedback"@.len() == 8 && "feedback"@[0] == 'f' && "feedback"@[1] == 'e' && "feedback"@[2] == 'e' && "feedback"@[3] == 'd' && "feedback"@[4] == 'b' && "feedback"@[6] == 'c');
    reveal_strlit("rollout");
    assert("rollout"@.len() == 7 && "rollout"@[0] == 'r' && "rollout"@[1] == 'o' && "rollout"@[2] == 'l' && "rollout"@[3] == 'l' && "rollout"@[4] == 'o' && "rollout"@[6] == 't');
    reveal_strlit("ps");
    assert("ps"@.len() == 2 && "ps"@[0] == 'p' && "ps"@[1] == 's');
    reveal_strlit("stop");
    assert("stop"@.len() == 4 && "stop"@[0] == 's' && "stop"@[1] == 't' && "stop"@[2] == 'o' && "stop"@[3] == 'p');
    reveal_strlit("clean");
    assert("clean"@.len() == 5 && "clean"@[0] == 'c' && "clean"@[1] == 'l' && "clean"@[2] == 'e' && "clean"@[3] == 'a' && "clean"@[4] == 'n');
    reveal_strlit("clear");
    assert("clear"@.len() == 5 && "clear"@[0] == 'c' && "clear"@[1] == 'l' && "clear"@[2] == 'e' && "clear"@[3] == 'a' && "clear"@[4] == 'r');
    reveal_strlit("personality");
    assert("personality"@.len() == 11 && "personality"@[0] == 'p' && "personality"@[1] == 'e' && "personality"@[2] == 'r' && "personality"@[3] == 's' && "personality"@[4] == 'o' && "personality"@[6] == 'a');
    reveal_strlit("realtime");
    assert("realtime"@.len() == 8 && "realtime"@[0] == 'r' && "realtime"@[1] == 'e' && "realtime"@[2] == 'a' && "realtime"@[3] == 'l' && "realtime"@[4] == 't' && "realtime"@[6] == 'm');
    reveal_strlit("settings");
    assert("settings"@.len() == 8 && "settings"@[0] == 's' && "settings"@[1] == 'e' && "settings"@[2] == 't' && "settings"@[3] == 't' && "settings"@[4] == 'i' && "settings"@[6] == 'g');
    reveal_strlit("test-approval");
    assert("test-approval"@.len() == 13 && "test-approval"@[0] == 't' && "test-approval"@[1] == 'e' && "test-approval"@[2] == 's' && "test-approval"@[3] == 't' && "test-approval"@[4] == '-' && "test-approval"@[6] == 'p');
    reveal_strlit("subagents");
    assert("subagents"@.len() == 9 && "subagents"@[0] == 's' && "subagents"@[1] == 'u' && "subagents"@[2] == 'b' && "subagents"@[3] == 'a' && "subagents"@[4] == 'g' && "subagents"@[6] == 'n');
    reveal_strlit("debug-m-drop");
    assert("debug-m-drop"@.len() == 12 && "debug-m-drop"@[0] == 'd' && "debug-m-drop"@[1] == 'e' && "debug-m-drop"@[2] == 'b' && "debug-m-drop"@[3] == 'u' && "debug-m-drop"@[4] == 'g' && "debug-m-drop"@[6] == 'm');
    reveal_strlit("debug-m-update");
    assert("debug-m-update"@.len() == 14 && "debug-m-update"@[0] == 'd' && "debug-m-update"@[1] == 'e' && "debug-m-update"@[2] == 'b' && "debug-m-update"@[3] == 'u' && "debug-m-update"@[4] == 'g' && "debug-m-update"@[6] == 'm');
}

/// Parsing a command's name gives the command back.
pub proof fn lemma_name_parses_to_command(c: SlashCommand)
    ensures
        parsed_command(c.name()) == Some(c),
{
    assert(c.is_spelling(c.name()));
    let d = choose|d: SlashCommand| d.is_spelling(c.name());
    lemma_spellings_are_unique(c, d, c.name());
}

/// Distinct commands have distinct names.
pub proof fn lemma_names_are_distinct(c1: SlashCommand, c2: SlashCommand)
    requires
        c1 != c2,
    ensures
        c1.name() != c2.name(),
{
    if c1.name() == c2.name() {
        lemma_spellings_are_unique(c1, c2, c1.name());
    }
}

/// The position of each command in the presentation order.
pub open spec fn position(c: SlashCommand) -> int {
    match c {
        SlashCommand::Model => 0,
        SlashCommand::Ide => 1,
        SlashCommand::Permissions => 2,
        SlashCommand::Keymap => 3,
        SlashCommand::Vim => 4,
        SlashCommand::ElevateSandbox => 5,
        SlashCommand::SandboxReadRoot => 6,
        SlashCommand::Experimental => 7,
        SlashCommand::AutoReview => 8,
        SlashCommand::Memories => 9,
        SlashCommand::Skills => 10,
        SlashCommand::Hooks => 11,
        SlashCommand::Review => 12,
        SlashCommand::Rename => 13,
        SlashCommand::New => 14,
        SlashCommand::Resume => 15,
        SlashCommand::Fork => 16,
        SlashCommand::Init => 17,
        SlashCommand::Compact => 18,
        SlashCommand::Plan => 19,
        SlashCommand::Goal => 20,
        SlashCommand::Agent => 21,
        SlashCommand::Side => 22,
        SlashCommand::Btw => 23,
        SlashCommand::Copy => 24,
        SlashCommand::Raw => 25,
        SlashCommand::Diff => 26,
        SlashCommand::Mention => 27,
        SlashCommand::Status => 28,
        SlashCommand::DebugConfig => 29,
        SlashCommand::Title => 30,
        SlashCommand::Statusline => 31,
        SlashCommand::Theme => 32,
        SlashCommand::Pets => 33,
        SlashCommand::Mcp => 34,
        SlashCommand::Apps => 35,
        SlashCommand::Plugins => 36,
        SlashCommand::Logout => 37,
        SlashCommand::Quit => 38,
        SlashCommand::Exit => 39,
        SlashCommand::Feedback => 40,
        SlashCommand::Rollout => 41,
        SlashCommand::Ps => 42,
        SlashCommand::Stop => 43,
        SlashCommand::Clear => 44,
        SlashCommand::Personality => 45,
        SlashCommand::Realtime => 46,
        SlashCommand::Settings => 47,
        SlashCommand::TestApproval => 48,
        SlashCommand::MultiAgents => 49,
        SlashCommand::MemoryDrop => 50,
        SlashCommand::MemoryUpdate => 51,
    }
}

/// The presentation order lists every command, each at its position.
pub proof fn lemma_all_commands_lists_every_command(c: SlashCommand)
    ensures
        all_commands().len() == 52,
        0 <= position(c) < all_commands().len(),
        all_commands()[position(c)] == c,
{
    let s = all_commands();
    assert(s.len() == 52);
    match c {
        SlashCommand::Model => assert(s[0] == c),
        SlashCommand::Ide => assert(s[1] == c),
        SlashCommand::Permissions => assert(s[2] == c),
        SlashCommand::Keymap => assert(s[3] == c),
        SlashCommand::Vim => assert(s[4] == c),
        SlashCommand::ElevateSandbox => assert(s[5] == c),
        SlashCommand::SandboxReadRoot => assert(s[6] == c),
        SlashCommand::Experimental => assert(s[7] == c),
        SlashCommand::AutoReview => assert(s[8] == c),
        SlashCommand::Memories => assert(s[9] == c),
        SlashCommand::Skills => assert(s[10] == c),
        SlashCommand::Hooks => assert(s[11] == c),
        SlashCommand::Review => assert(s[12] == c),
        SlashCommand::Rename => assert(s[13] == c),
        SlashCommand::New => assert(s[14] == c),
        SlashCommand::Resume => assert(s[15] == c),
        SlashCommand::Fork => assert(s[16] == c),
        SlashCommand::Init => assert(s[17] == c),
        SlashCommand::Compact => assert(s[18] == c),
        SlashCommand::Plan => assert(s[19] == c),
        SlashCommand::Goal => assert(s[20] == c),
        SlashCommand::Agent => assert(s[21] == c),
        SlashCommand::Side => assert(s[22] == c),
        SlashCommand::Btw => assert(s[23] == c),
        SlashCommand::Copy => assert(s[24] == c),
        SlashCommand::Raw => assert(s[25] == c),
        SlashCommand::Diff => assert(s[26] == c),
        SlashCommand::Mention => assert(s[27] == c),
        SlashCommand::Status => assert(s[28] == c),
        SlashCommand::DebugConfig => assert(s[29] == c),
        SlashCommand::Title => assert(s[30] == c),
        SlashCommand::Statusline => assert(s[31] == c),
        SlashCommand::Theme => assert(s[32] == c),
        SlashCommand::Pets => assert(s[33] == c),
        SlashCommand::Mcp => assert(s[34] == c),
        SlashCommand::Apps => assert(s[35] == c),
        SlashCommand::Plugins => assert(s[36] == c),
        SlashCommand::Logout => assert(s[37] == c),
        SlashCommand::Quit => assert(s[38] == c),
        SlashCommand::Exit => assert(s[39] == c),
        SlashCommand::Feedback => assert(s[40] == c),
        SlashCommand::Rollout => assert(s[41] == c),
        SlashCommand::Ps => assert(s[42] == c),
        SlashCommand::Stop => assert(s[43] == c),
        SlashCommand::Clear => assert(s[44] == c),
        SlashCommand::Personality => assert(s[45] == c),
        SlashCommand::Realtime => assert(s[46] == c),
        SlashCommand::Settings => assert(s[47] == c),
        SlashCommand::TestApproval => assert(s[48] == c),
        SlashCommand::MultiAgents => assert(s[49] == c),
        SlashCommand::MemoryDrop => assert(s[50] == c),
        SlashCommand::MemoryUpdate => assert(s[51] == c),
    }
}

/// The presentation order lists no command twice.
pub proof fn lemma_all_commands_has_no_duplicates()
    ensures
        all_commands().no_duplicates(),
{
    let s = all_commands();
    assert forall|i: int, j: int| 0 <= i < s.len() && 0 <= j < s.len() && s[i] == s[j] implies i == j by {
        lemma_all_commands_lists_every_command(s[i]);
        assert(position(s[i]) == i) by {
            assert(s[0] == SlashCommand::Model);
            assert(s[1] == SlashCommand::Ide);
            assert(s[2] == SlashCommand::Permissions);
            assert(s[3] == SlashCommand::Keymap);
            assert(s[4] == SlashCommand::Vim);
            assert(s[5] == SlashCommand::ElevateSandbox);
            assert(s[6] == SlashCommand::SandboxReadRoot);
            assert(s[7] == SlashCommand::Experimental);
            assert(s[8] == SlashCommand::AutoReview);
            assert(s[9] == SlashCommand::Memories);
            assert(s[10] == SlashCommand::Skills);
            assert(s[11] == SlashCommand::Hooks);
            assert(s[12] == SlashCommand::Review);
            assert(s[13] == SlashCommand::Rename);
            assert(s[14] == SlashCommand::New);
            assert(s[15] == SlashCommand::Resume);
            assert(s[16] == SlashCommand::Fork);
            assert(s[17] == SlashCommand::Init);
            assert(s[18] == SlashCommand::Compact);
            assert(s[19] == SlashCommand::Plan);
            assert(s[20] == SlashCommand::Goal);
            assert(s[21] == SlashCommand::Agent);
            assert(s[22] == SlashCommand::Side);
            assert(s[23] == SlashCommand::Btw);
            assert(s[24] == SlashCommand::Copy);
            assert(s[25] == SlashCommand::Raw);
            assert(s[26] == SlashCommand::Diff);
            assert(s[27] == SlashCommand::Mention);
            assert(s[28] == SlashCommand::Status);
            assert(s[29] == SlashCommand::DebugConfig);
            assert(s[30] == SlashCommand::Title);
            assert(s[31] == SlashCommand::Statusline);
            assert(s[32] == SlashCommand::Theme);
            assert(s[33] == SlashCommand::Pets);
            assert(s[34] == SlashCommand::Mcp);
            assert(s[35] == SlashCommand::Apps);
            assert(s[36] == SlashCommand::Plugins);
            assert(s[37] == SlashCommand::Logout);
            assert(s[38] == SlashCommand::Quit);
            assert(s[39] == SlashCommand::Exit);
            assert(s[40] == SlashCommand::Feedback);
            assert(s[41] == SlashCommand::Rollout);
            assert(s[42] == SlashCommand::Ps);
            assert(s[43] == SlashCommand::Stop);
            assert(s[44] == SlashCommand::Clear);
            assert(s[45] == SlashCommand::Personality);
            assert(s[46] == SlashCommand::Realtime);
            assert(s[47] == SlashCommand::Settings);
            assert(s[48] == SlashCommand::TestApproval);
            assert(s[49] == SlashCommand::MultiAgents);
            assert(s[50] == SlashCommand::MemoryDrop);
            assert(s[51] == SlashCommand::MemoryUpdate);
        }
        assert(position(s[j]) == j) by {
            assert(s[0] == SlashCommand::Model);
            assert(s[1] == SlashCommand::Ide);
            assert(s[2] == SlashCommand::Permissions);
            assert(s[3] == SlashCommand::Keymap);
            assert(s[4] == SlashCommand::Vim);
            assert(s[5] == SlashCommand::ElevateSandbox);
            assert(s[6] == SlashCommand::SandboxReadRoot);
            assert(s[7] == SlashCommand::Experimental);
            assert(s[8] == SlashCommand::AutoReview);
            assert(s[9] == SlashCommand::Memories);
            assert(s[10] == SlashCommand::Skills);
            assert(s[11] == SlashCommand::Hooks);
            assert(s[12] == SlashCommand::Review);
            assert(s[13] == SlashCommand::Rename);
            assert(s[14] == SlashCommand::New);
            assert(s[15] == SlashCommand::Resume);
            assert(s[16] == SlashCommand::Fork);
            assert(s[17] == SlashCommand::Init);
            assert(s[18] == SlashCommand::Compact);
            assert(s[19] == SlashCommand::Plan);
            assert(s[20] == SlashCommand::Goal);
            assert(s[21] == SlashCommand::Agent);
            assert(s[22] == SlashCommand::Side);
            assert(s[23] == SlashCommand::Btw);
            assert(s[24] == SlashCommand::Copy);
            assert(s[25] == SlashCommand::Raw);
            assert(s[26] == SlashCommand::Diff);
            assert(s[27] == SlashCommand::Mention);
            assert(s[28] == SlashCommand::Status);
            assert(s[29] == SlashCommand::DebugConfig);
            assert(s[30] == SlashCommand::Title);
            assert(s[31] == SlashCommand::Statusline);
            assert(s[32] == SlashCommand::Theme);
            assert(s[33] == SlashCommand::Pets);
            assert(s[34] == SlashCommand::Mcp);
            assert(s[35] == SlashCommand::Apps);
            assert(s[36] == SlashCommand::Plugins);
            assert(s[37] == SlashCommand::Logout);
            assert(s[38] == SlashCommand::Quit);
            assert(s[39] == SlashCommand::Exit);
            assert(s[40] == SlashCommand::Feedback);
            assert(s[41] == SlashCommand::Rollout);
            assert(s[42] == SlashCommand::Ps);
            assert(s[43] == SlashCommand::Stop);
            assert(s[44] == SlashCommand::Clear);
            assert(s[45] == SlashCommand::Personality);
            assert(s[46] == SlashCommand::Realtime);
            assert(s[47] == SlashCommand::Settings);
            assert(s[48] == SlashCommand::TestApproval);
            assert(s[49] == SlashCommand::MultiAgents);
            assert(s[50] == SlashCommand::MemoryDrop);
            assert(s[51] == SlashCommand::MemoryUpdate);
        }
    }
}

/// Keeping the elements that satisfy a predicate keeps them distinct.
proof fn lemma_filter_keeps_no_duplicates(s: Seq<SlashCommand>, p: spec_fn(SlashCommand) -> bool)
    requires
        s.no_duplicates(),
    ensures
        s.filter(p).no_duplicates(),
    decreases s.len(),
{
    reveal(Seq::filter);
    if s.len() > 0 {
        let rest = s.drop_last();
        assert(rest.no_duplicates()) by {
            assert forall|i: int, j: int|
                0 <= i < rest.len() && 0 <= j < rest.len() && i != j implies rest[i] != rest[j] by {
                assert(rest[i] == s[i] && rest[j] == s[j]);
            }
        }
        lemma_filter_keeps_no_duplicates(rest, p);
        if p(s.last()) {
            let f = rest.filter(p);
            if f.contains(s.last()) {
                rest.lemma_filter_contains_rev(p, s.last());
                let k = choose|k: int| 0 <= k < rest.len() && rest[k] == s.last();
                assert(s[k] == s[s.len() - 1]);
            }
            let g = f.push(s.last());
            assert forall|i: int, j: int| 0 <= i < g.len() && 0 <= j < g.len() && i != j implies g[i]
                != g[j] by {
                if i < f.len() && j < f.len() {
                    assert(g[i] == f[i] && g[j] == f[j]);
                } else if i < f.len() {
                    assert(g[i] == f[i]);
                    assert(f.contains(f[i]));
                } else {
                    assert(g[j] == f[j]);
                    assert(f.contains(f[j]));
                }
            }
        }
    }
}

/// The built-in list of a target holds each command visible there, once, and
/// no other command.
pub proof fn lemma_built_ins_are_the_visible_commands(target: BuildTarget, c: SlashCommand)
    ensures
        visible_commands(target).contains(c) <==> c.visible_on(target),
        visible_commands(target).no_duplicates(),
{
    broadcast use vstd::seq_lib::group_filter_ensures;

    let s = all_commands();
    let p = shown_on(target);
    lemma_all_commands_lists_every_command(c);
    lemma_all_commands_has_no_duplicates();
    lemma_filter_keeps_no_duplicates(s, p);
    if c.visible_on(target) {
        s.lemma_filter_contains(p, position(c));
    }
    if s.filter(p).contains(c) {
        let i = choose|i: int| 0 <= i < s.filter(p).len() && s.filter(p)[i] == c;
        s.lemma_filter_pred(p, i);
    }
}

/// The commands that share a description: `Quit`, `Exit` and `Logout`;
/// `Agent` and `MultiAgents`; `Side` and `Btw`; `MemoryDrop` and
/// `MemoryUpdate`. Other commands are alone (0).
pub open spec fn description_group(c: SlashCommand) -> int {
    match c {
        SlashCommand::Quit | SlashCommand::Exit | SlashCommand::Logout => 1,
        SlashCommand::Agent | SlashCommand::MultiAgents => 2,
        SlashCommand::Side | SlashCommand::Btw => 3,
        SlashCommand::MemoryDrop | SlashCommand::MemoryUpdate => 4,
        _ => 0,
    }
}

/// Equal descriptions belong to the same command or to one shared group.
proof fn lemma_equal_descriptions_share_a_group(a: SlashCommand, b: SlashCommand)
    requires
        a.description_text() == b.description_text(),
    ensures
        a == b || (description_group(a) != 0 && description_group(a) == description_group(b)),
{
    reveal_strlit("НЕ ИСПОЛЬЗОВАТЬ");
    assert("НЕ ИСПОЛЬЗОВАТЬ"@.len() == 15 && "НЕ ИСПОЛЬЗОВАТЬ"@[0] == 'Н' && "НЕ ИСПОЛЬЗОВАТЬ"@[1] == 'Е' && "НЕ ИСПОЛЬЗОВАТЬ"@[2] == ' ' && "НЕ ИСПОЛЬЗОВАТЬ"@[9] == 'З' && "НЕ ИСПОЛЬЗОВАТЬ"@[10] == 'О');
    reveal_strlit("возобновить сохранённый чат");
    assert("возобновить сохранённый чат"@.len() == 27 && "возобновить сохранённый чат"@[0] == 'в' && "возобновить сохранённый чат"@[1] == 'о' && "возобновить сохранённый чат"@[2] == 'з' && "возобновить сохранённый чат"@[9] == 'т' && "возобновить сохранённый чат"@[10] == 'ь');
    reveal_strlit("выбрать или скрыть питомца в терминале");
    assert("выбрать или скрыть питомца в терминале"@.len() == 38 && "выбрать или скрыть питомца в терминале"@[0] == 'в' && "выбрать или скрыть питомца в терминале"@[1] == 'ы' && "выбрать или скрыть питомца в терминале"@[2] == 'б' && "выбрать или скрыть питомца в терминале"@[9] == 'л' && "выбрать или скрыть питомца в терминале"@[10] == 'и');
    reveal_strlit("выбрать модель и уровень reasoning");
    assert("выбрать модель и уровень reasoning"@.len() == 34 && "выбрать модель и уровень reasoning"@[0] == 'в' && "выбрать модель и уровень reasoning"@[1] == 'ы' && "выбрать модель и уровень reasoning"@[2] == 'б' && "выбрать модель и уровень reasoning"@[9] == 'о' && "выбрать модель и уровень reasoning"@[10] == 'д');
    reveal_strlit("выбрать стиль общения ОЗАРНИК");
    assert("выбрать стиль общения ОЗАРНИК"@.len() == 29 && "выбрать стиль общения ОЗАРНИК"@[0] == 'в' && "выбрать стиль общения ОЗАРНИК"@[1] == 'ы' && "выбрать стиль общения ОЗАРНИК"@[2] == 'б' && "выбрать стиль общения ОЗАРНИК"@[9] == 'т' && "выбрать стиль общения ОЗАРНИК"@[10] == 'и');
    reveal_strlit("выбрать тему подсветки синтаксиса");
    assert("выбрать тему подсветки синтаксиса"@.len() == 33 && "выбрать тему подсветки синтаксиса"@[0] == 'в' && "выбрать тему подсветки синтаксиса"@[1] == 'ы' && "выбрать тему подсветки синтаксиса"@[2] == 'б' && "выбрать тему подсветки синтаксиса"@[9] == 'е' && "выбрать тему подсветки синтаксиса"@[10] == 'м');
    reveal_strlit("выбрать что ОЗАРНИК разрешено делать");
    assert("выбрать что ОЗАРНИК разрешено делать"@.len() == 36 && "выбрать что ОЗАРНИК разрешено делать"@[0] == 'в' && "выбрать что ОЗАРНИК разрешено делать"@[1] == 'ы' && "выбрать что ОЗАРНИК разрешено делать"@[2] == 'б' && "выбрать что ОЗАРНИК разрешено делать"@[9] == 'т' && "выбрать что ОЗАРНИК разрешено делать"@[10] == 'о');
    reveal_strlit("выйти из ОЗАРНИК");
    assert("выйти из ОЗАРНИК"@.len() == 16 && "выйти из ОЗАРНИК"@[0] == 'в' && "выйти из ОЗАРНИК"@[1] == 'ы' && "выйти из ОЗАРНИК"@[2] == 'й' && "выйти из ОЗАРНИК"@[9] == 'О' && "выйти из ОЗАРНИК"@[10] == 'З');
    reveal_strlit("задать или посмотреть цель для долгой задачи");
    assert("задать или посмотреть цель для долгой задачи"@.len() == 44 && "задать или посмотреть цель для долгой задачи"@[0] == 'з' && "задать или посмотреть цель для долгой задачи"@[1] == 'а' && "задать или посмотреть цель для долгой задачи"@[2] == 'д' && "задать или посмотреть цель для долгой задачи"@[9] == 'и' && "задать или посмотреть цель для долгой задачи"@[10] == ' ');
    reveal_strlit("использовать навыки для улучшения работы ОЗАРНИК над конкретными задачами");
    assert("использовать навыки для улучшения работы ОЗАРНИК над конкретными задачами"@.len() == 73 && "использовать навыки для улучшения работы ОЗАРНИК над конкретными задачами"@[0] == 'и' && "использовать навыки для улучшения работы ОЗАРНИК над конкретными задачами"@[1] == 'с' && "использовать навыки для улучшения работы ОЗАРНИК над конкретными задачами"@[2] == 'п' && "использовать навыки для улучшения работы ОЗАРНИК над конкретными задачами"@[9] == 'а' && "использовать навыки для улучшения работы ОЗАРНИК над конкретными задачами"@[10] == 'т');
    reveal_strlit("настроить использование и генерацию памяти");
    assert("настроить использование и генерацию памяти"@.len() == 42 && "настроить использование и генерацию памяти"@[0] == 'н' && "настроить использование и генерацию памяти"@[1] == 'а' && "настроить использование и генерацию памяти"@[2] == 'с' && "настроить использование и генерацию памяти"@[9] == ' ' && "настроить использование и генерацию памяти"@[10] == 'и');
    reveal_strlit("настроить микрофон/динамик realtime");
    assert("настроить микрофон/динамик realtime"@.len() == 35 && "настроить микрофон/динамик realtime"@[0] == 'н' && "настроить микрофон/динамик realtime"@[1] == 'а' && "настроить микрофон/динамик realtime"@[2] == 'с' && "настроить микрофон/динамик realtime"@[9] == ' ' && "настроить микрофон/динамик realtime"@[10] == 'м');
    reveal_strlit("настроить песочницу с повышенными правами");
    assert("настроить песочницу с повышенными правами"@.len() == 41 && "настроить песочницу с повышенными правами"@[0] == 'н' && "настроить песочницу с повышенными правами"@[1] == 'а' && "настроить песочницу с повышенными правами"@[2] == 'с' && "настроить песочницу с повышенными правами"@[9] == ' ' && "настроить песочницу с повышенными правами"@[10] == 'п');
    reveal_strlit("настроить что показывать в заголовке терминала");
    assert("настроить что показывать в заголовке терминала"@.len() == 46 && "настроить что показывать в заголовке терминала"@[0] == 'н' && "настроить что показывать в заголовке терминала"@[1] == 'а' && "настроить что показывать в заголовке терминала"@[2] == 'с' && "настроить что показывать в заголовке терминала"@[9] == ' ' && "настроить что показывать в заголовке терминала"@[10] == 'ч');
    reveal_strlit("настроить что показывать в строке статуса");
    assert("настроить что показывать в строке статуса"@.len() == 41 && "настроить что показывать в строке статуса"@[0] == 'н' && "настроить что показывать в строке статуса"@[1] == 'а' && "настроить что показывать в строке статуса"@[2] == 'с' && "настроить что показывать в строке статуса"@[9] == ' ' && "настроить что показывать в строке статуса"@[10] == 'ч');
    reveal_strlit("начать новый чат во время разговора");
    assert("начать новый чат во время разговора"@.len() == 35 && "начать новый чат во время разговора"@[0] == 'н' && "начать новый чат во время разговора"@[1] == 'а' && "начать новый чат во время разговора"@[2] == 'ч' && "начать новый чат во время разговора"@[9] == 'в' && "начать новый чат во время разговора"@[10] == 'ы');
    reveal_strlit("начать побочный разговор в эфемерном форке");
    assert("начать побочный разговор в эфемерном форке"@.len() == 42 && "начать побочный разговор в эфемерном форке"@[0] == 'н' && "начать побочный разговор в эфемерном форке"@[1] == 'а' && "начать побочный разговор в эфемерном форке"@[2] == 'ч' && "начать побочный разговор в эфемерном форке"@[9] == 'б' && "начать побочный разговор в эфемерном форке"@[10] == 'о');
    reveal_strlit("одобрить один повтор недавнего auto-review отказа");
    assert("одобрить один повтор недавнего auto-review отказа"@.len() == 49 && "одобрить один повтор недавнего auto-review отказа"@[0] == 'о' && "одобрить один повтор недавнего auto-review отказа"@[1] == 'д' && "одобрить один повтор недавнего auto-review отказа"@[2] == 'о' && "одобрить один повтор недавнего auto-review отказа"@[9] == 'о' && "одобрить один повтор недавнего auto-review отказа"@[10] == 'д');
    reveal_strlit("остановить все фоновые терминалы");
    assert("остановить все фоновые терминалы"@.len() == 32 && "остановить все фоновые терминалы"@[0] == 'о' && "остановить все фоновые терминалы"@[1] == 'с' && "остановить все фоновые терминалы"@[2] == 'т' && "остановить все фоновые терминалы"@[9] == 'ь' && "остановить все фоновые терминалы"@[10] == ' ');
    reveal_strlit("отправить логи разработчикам");
    assert("отправить логи разработчикам"@.len() == 28 && "отправить логи разработчикам"@[0] == 'о' && "отправить логи разработчикам"@[1] == 'т' && "отправить логи разработчикам"@[2] == 'п' && "отправить логи разработчикам"@[9] == ' ' && "отправить логи разработчикам"@[10] == 'л');
    reveal_strlit("очистить терминал и начать новый чат");
    assert("очистить терминал и начать новый чат"@.len() == 36 && "очистить терминал и начать новый чат"@[0] == 'о' && "очистить терминал и начать новый чат"@[1] == 'ч' && "очистить терминал и начать новый чат"@[2] == 'и' && "очистить терминал и начать новый чат"@[9] == 'т' && "очистить терминал и начать новый чат"@[10] == 'е');
    reveal_strlit("переименовать текущий тред");
    assert("переименовать текущий тред"@.len() == 26 && "переименовать текущий тред"@[0] == 'п' && "переименовать текущий тред"@[1] == 'е' && "переименовать текущий тред"@[2] == 'р' && "переименовать текущий тред"@[9] == 'в' && "переименовать текущий тред"@[10] == 'а');
    reveal_strlit("перейти в режим Plan");
    assert("перейти в режим Plan"@.len() == 20 && "перейти в режим Plan"@[0] == 'п' && "перейти в режим Plan"@[1] == 'е' && "перейти в режим Plan"@[2] == 'р' && "перейти в режим Plan"@[9] == ' ' && "перейти в режим Plan"@[10] == 'р');
    reveal_strlit("переключить Vim-режим в редакторе ввода");
    assert("переключить Vim-режим в редакторе ввода"@.len() == 39 && "переключить Vim-режим в редакторе ввода"@[0] == 'п' && "переключить Vim-режим в редакторе ввода"@[1] == 'е' && "переключить Vim-режим в редакторе ввода"@[2] == 'р' && "переключить Vim-режим в редакторе ввода"@[9] == 'т' && "переключить Vim-режим в редакторе ввода"@[10] == 'ь');
    reveal_strlit("переключить raw-режим прокрутки для удобного выделения мышью");
    assert("переключить raw-режим прокрутки для удобного выделения мышью"@.len() == 60 && "переключить raw-режим прокрутки для удобного выделения мышью"@[0] == 'п' && "переключить raw-режим прокрутки для удобного выделения мышью"@[1] == 'е' && "переключить raw-режим прокрутки для удобного выделения мышью"@[2] == 'р' && "переключить raw-режим прокрутки для удобного выделения мышью"@[9] == 'т' && "переключить raw-режим прокрутки для удобного выделения мышью"@[10] == 'ь');
    reveal_strlit("переключить активный agent-тред");
    assert("переключить активный agent-тред"@.len() == 31 && "переключить активный agent-тред"@[0] == 'п' && "переключить активный agent-тред"@[1] == 'е' && "переключить активный agent-тред"@[2] == 'р' && "переключить активный agent-тред"@[9] == 'т' && "переключить активный agent-тред"@[10] == 'ь');
    reveal_strlit("переключить голосовой режим (экспериментально)");
    assert("переключить голосовой режим (экспериментально)"@.len() == 46 && "переключить голосовой режим (экспериментально)"@[0] == 'п' && "переключить голосовой режим (экспериментально)"@[1] == 'е' && "переключить голосовой режим (экспериментально)"@[2] == 'р' && "переключить голосовой режим (экспериментально)"@[9] == 'т' && "переключить голосовой режим (экспериментально)"@[10] == 'ь');
    reveal_strlit("переключить экспериментальные функции");
    assert("переключить экспериментальные функции"@.len() == 37 && "переключить экспериментальные функции"@[0] == 'п' && "переключить экспериментальные функции"@[1] == 'е' && "переключить экспериментальные функции"@[2] == 'р' && "переключить экспериментальные функции"@[9] == 'т' && "переключить экспериментальные функции"@[10] == 'ь');
    reveal_strlit("переназначить горячие клавиши TUI");
    assert("переназначить горячие клавиши TUI"@.len() == 33 && "переназначить горячие клавиши TUI"@[0] == 'п' && "переназначить горячие клавиши TUI"@[1] == 'е' && "переназначить горячие клавиши TUI"@[2] == 'р' && "переназначить горячие клавиши TUI"@[9] == 'ч' && "переназначить горячие клавиши TUI"@[10] == 'и');
    reveal_strlit("подтянуть текущее выделение, открытые файлы и другой контекст из вашей IDE");
    assert("подтянуть текущее выделение, открытые файлы и другой контекст из вашей IDE"@.len() == 74 && "подтянуть текущее выделение, открытые файлы и другой контекст из вашей IDE"@[0] == 'п' && "подтянуть текущее выделение, открытые файлы и другой контекст из вашей IDE"@[1] == 'о' && "подтянуть текущее выделение, открытые файлы и другой контекст из вашей IDE"@[2] == 'д' && "подтянуть текущее выделение, открытые файлы и другой контекст из вашей IDE"@[9] == ' ' && "подтянуть текущее выделение, открытые файлы и другой контекст из вашей IDE"@[10] == 'т');
    reveal_strlit("показать git diff (включая неотслеживаемые файлы)");
    assert("показать git diff (включая неотслеживаемые файлы)"@.len() == 49 && "показать git diff (включая неотслеживаемые файлы)"@[0] == 'п' && "показать git diff (включая неотслеживаемые файлы)"@[1] == 'о' && "показать git diff (включая неотслеживаемые файлы)"@[2] == 'к' && "показать git diff (включая неотслеживаемые файлы)"@[9] == 'g' && "показать git diff (включая неотслеживаемые файлы)"@[10] == 'i');
    reveal_strlit("показать настройки сессии и использование токенов");
    assert("показать настройки сессии и использование токенов"@.len() == 49 && "показать настройки сессии и использование токенов"@[0] == 'п' && "показать настройки сессии и использование токенов"@[1] == 'о' && "показать настройки сессии и использование токенов"@[2] == 'к' && "показать настройки сессии и использование токенов"@[9] == 'н' && "показать настройки сессии и использование токенов"@[10] == 'а');
    reveal_strlit("показать путь к rollout-файлу");
    assert("показать путь к rollout-файлу"@.len() == 29 && "показать путь к rollout-файлу"@[0] == 'п' && "показать путь к rollout-файлу"@[1] == 'о' && "показать путь к rollout-файлу"@[2] == 'к' && "показать путь к rollout-файлу"@[9] == 'п' && "показать путь к rollout-файлу"@[10] == 'у');
    reveal_strlit("показать слои конфига и источники требований (для отладки)");
    assert("показать слои конфига и источники требований (для отладки)"@.len() == 58 && "показать слои конфига и источники требований (для отладки)"@[0] == 'п' && "показать слои конфига и источники требований (для отладки)"@[1] == 'о' && "показать слои конфига и источники требований (для отладки)"@[2] == 'к' && "показать слои конфига и источники требований (для отладки)"@[9] == 'с' && "показать слои конфига и источники требований (для отладки)"@[10] == 'л');
    reveal_strlit("посмотреть и настроить lifecycle-хуки");
    assert("посмотреть и настроить lifecycle-хуки"@.len() == 37 && "посмотреть и настроить lifecycle-хуки"@[0] == 'п' && "посмотреть и настроить lifecycle-хуки"@[1] == 'о' && "посмотреть и настроить lifecycle-хуки"@[2] == 'с' && "посмотреть и настроить lifecycle-хуки"@[9] == 'ь' && "посмотреть и настроить lifecycle-хуки"@[10] == ' ');
    reveal_strlit("проверить текущие изменения и найти проблемы");
    assert("проверить текущие изменения и найти проблемы"@.len() == 44 && "проверить текущие изменения и найти проблемы"@[0] == 'п' && "проверить текущие изменения и найти проблемы"@[1] == 'р' && "проверить текущие изменения и найти проблемы"@[2] == 'о' && "проверить текущие изменения и найти проблемы"@[9] == ' ' && "проверить текущие изменения и найти проблемы"@[10] == 'т');
    reveal_strlit("просмотр плагинов");
    assert("просмотр плагинов"@.len() == 17 && "просмотр плагинов"@[0] == 'п' && "просмотр плагинов"@[1] == 'р' && "просмотр плагинов"@[2] == 'о' && "просмотр плагинов"@[9] == 'п' && "просмотр плагинов"@[10] == 'л');
    reveal_strlit("разветвить текущий чат");
    assert("разветвить текущий чат"@.len() == 22 && "разветвить текущий чат"@[0] == 'р' && "разветвить текущий чат"@[1] == 'а' && "разветвить текущий чат"@[2] == 'з' && "разветвить текущий чат"@[9] == 'ь' && "разветвить текущий чат"@[10] == ' ');
    reveal_strlit("разрешить песочнице читать директорию: /sandbox-add-read-dir <абсолютный_путь>");
    assert("разрешить песочнице читать директорию: /sandbox-add-read-dir <абсолютный_путь>"@.len() == 78 && "разрешить песочнице читать директорию: /sandbox-add-read-dir <абсолютный_путь>"@[0] == 'р' && "разрешить песочнице читать директорию: /sandbox-add-read-dir <абсолютный_путь>"@[1] == 'а' && "разрешить песочнице читать директорию: /sandbox-add-read-dir <абсолютный_путь>"@[2] == 'з' && "разрешить песочнице читать директорию: /sandbox-add-read-dir <абсолютный_путь>"@[9] == ' ' && "разрешить песочнице читать директорию: /sandbox-add-read-dir <абсолютный_путь>"@[10] == 'п');
    reveal_strlit("сжать переписку, чтобы не упереться в лимит контекста");
    assert("сжать переписку, чтобы не упереться в лимит контекста"@.len() == 53 && "сжать переписку, чтобы не упереться в лимит контекста"@[0] == 'с' && "сжать переписку, чтобы не упереться в лимит контекста"@[1] == 'ж' && "сжать переписку, чтобы не упереться в лимит контекста"@[2] == 'а' && "сжать переписку, чтобы не упереться в лимит контекста"@[9] == 'е' && "сжать переписку, чтобы не упереться в лимит контекста"@[10] == 'п');
    reveal_strlit("скопировать последний ответ в markdown");
    assert("скопировать последний ответ в markdown"@.len() == 38 && "скопировать последний ответ в markdown"@[0] == 'с' && "скопировать последний ответ в markdown"@[1] == 'к' && "скопировать последний ответ в markdown"@[2] == 'о' && "скопировать последний ответ в markdown"@[9] == 'т' && "скопировать последний ответ в markdown"@[10] == 'ь');
    reveal_strlit("создать файл AGENTS.md с инструкциями для ОЗАРНИК");
    assert("создать файл AGENTS.md с инструкциями для ОЗАРНИК"@.len() == 49 && "создать файл AGENTS.md с инструкциями для ОЗАРНИК"@[0] == 'с' && "создать файл AGENTS.md с инструкциями для ОЗАРНИК"@[1] == 'о' && "создать файл AGENTS.md с инструкциями для ОЗАРНИК"@[2] == 'з' && "создать файл AGENTS.md с инструкциями для ОЗАРНИК"@[9] == 'а' && "создать файл AGENTS.md с инструкциями для ОЗАРНИК"@[10] == 'й');
    reveal_strlit("список настроенных MCP-инструментов; /mcp verbose для подробностей");
    assert("список настроенных MCP-инструментов; /mcp verbose для подробностей"@.len() == 66 && "список настроенных MCP-инструментов; /mcp verbose для подробностей"@[0] == 'с' && "список настроенных MCP-инструментов; /mcp verbose для подробностей"@[1] == 'п' && "список настроенных MCP-инструментов; /mcp verbose для подробностей"@[2] == 'и' && "список настроенных MCP-инструментов; /mcp verbose для подробностей"@[9] == 'с' && "список настроенных MCP-инструментов; /mcp verbose для подробностей"@[10] == 'т');
    reveal_strlit("список фоновых терминалов");
    assert("список фоновых терминалов"@.len() == 25 && "список фоновых терминалов"@[0] == 'с' && "список фоновых терминалов"@[1] == 'п' && "список фоновых терминалов"@[2] == 'и' && "список фоновых терминалов"@[9] == 'н' && "список фоновых терминалов"@[10] == 'о');
    reveal_strlit("тестовый запрос подтверждения");
    assert("тестовый запрос подтверждения"@.len() == 29 && "тестовый запрос подтверждения"@[0] == 'т' && "тестовый запрос подтверждения"@[1] == 'е' && "тестовый запрос подтверждения"@[2] == 'с' && "тестовый запрос подтверждения"@[9] == 'з' && "тестовый запрос подтверждения"@[10] == 'а');
    reveal_strlit("упомянуть файл");
    assert("упомянуть файл"@.len() == 14 && "упомянуть файл"@[0] == 'у' && "упомянуть файл"@[1] == 'п' && "упомянуть файл"@[2] == 'о' && "упомянуть файл"@[9] == ' ' && "упомянуть файл"@[10] == 'ф');
    reveal_strlit("управление приложениями");
    assert("управление приложениями"@.len() == 23 && "управление приложениями"@[0] == 'у' && "управление приложениями"@[1] == 'п' && "управление приложениями"@[2] == 'р' && "управление приложениями"@[9] == 'е' && "управление приложениями"@[10] == ' ');
}

/// Every description is non-empty, and two commands have the same
/// description exactly when they are the same command or belong to one of
/// the groups that share a description.
pub proof fn lemma_descriptions_coincide_only_within_groups(a: SlashCommand, b: SlashCommand)
    ensures
        a.description_text().len() > 0,
        a.description_text() == b.description_text() <==> (a == b || (description_group(a) != 0
            && description_group(a) == description_group(b))),
{
    reveal_strlit("НЕ ИСПОЛЬЗОВАТЬ");
    assert("НЕ ИСПОЛЬЗОВАТЬ"@.len() == 15 && "НЕ ИСПОЛЬЗОВАТЬ"@[0] == 'Н' && "НЕ ИСПОЛЬЗОВАТЬ"@[1] == 'Е' && "НЕ ИСПОЛЬЗОВАТЬ"@[2] == ' ' && "НЕ ИСПОЛЬЗОВАТЬ"@[9] == 'З' && "НЕ ИСПОЛЬЗОВАТЬ"@[10] == 'О');
    reveal_strlit("возобновить сохранённый чат");
    assert("возобновить сохранённый чат"@.len() == 27 && "возобновить сохранённый чат"@[0] == 'в' && "возобновить сохранённый чат"@[1] == 'о' && "возобновить сохранённый чат"@[2] == 'з' && "возобновить сохранённый чат"@[9] == 'т' && "возобновить сохранённый чат"@[10] == 'ь');
    reveal_strlit("выбрать или скрыть питомца в терминале");
    assert("выбрать или скрыть питомца в терминале"@.len() == 38 && "выбрать или скрыть питомца в терминале"@[0] == 'в' && "выбрать или скрыть питомца в терминале"@[1] == 'ы' && "выбрать или скрыть питомца в терминале"@[2] == 'б' && "выбрать или скрыть питомца в терминале"@[9] == 'л' && "выбрать или скрыть питомца в терминале"@[10] == 'и');
    reveal_strlit("выбрать модель и уровень reasoning");
    assert("выбрать модель и уровень reasoning"@.len() == 34 && "выбрать модель и уровень reasoning"@[0] == 'в' && "выбрать модель и уровень reasoning"@[1] == 'ы' && "выбрать модель и уровень reasoning"@[2] == 'б' && "выбрать модель и уровень reasoning"@[9] == 'о' && "выбрать модель и уровень reasoning"@[10] == 'д');
    reveal_strlit("выбрать стиль общения ОЗАРНИК");
    assert("выбрать стиль общения ОЗАРНИК"@.len() == 29 && "выбрать стиль общения ОЗАРНИК"@[0] == 'в' && "выбрать стиль общения ОЗАРНИК"@[1] == 'ы' && "выбрать стиль общения ОЗАРНИК"@[2] == 'б' && "выбрать стиль общения ОЗАРНИК"@[9] == 'т' && "выбрать стиль общения ОЗАРНИК"@[10] == 'и');
    reveal_strlit("выбрать тему подсветки синтаксиса");
    assert("выбрать тему подсветки синтаксиса"@.len() == 33 && "выбрать тему подсветки синтаксиса"@[0] == 'в' && "выбрать тему подсветки синтаксиса"@[1] == 'ы' && "выбрать тему подсветки синтаксиса"@[2] == 'б' && "выбрать тему подсветки синтаксиса"@[9] == 'е' && "выбрать тему подсветки синтаксиса"@[10] == 'м');
    reveal_strlit("выбрать что ОЗАРНИК разрешено делать");
    assert("выбрать что ОЗАРНИК разрешено делать"@.len() == 36 && "выбрать что ОЗАРНИК разрешено делать"@[0] == 'в' && "выбрать что ОЗАРНИК разрешено делать"@[1] == 'ы' && "выбрать что ОЗАРНИК разрешено делать"@[2] == 'б' && "выбрать что ОЗАРНИК разрешено делать"@[9] == 'т' && "выбрать что ОЗАРНИК разрешено делать"@[10] == 'о');
    reveal_strlit("выйти из ОЗАРНИК");
    assert("выйти из ОЗАРНИК"@.len() == 16 && "выйти из ОЗАРНИК"@[0] == 'в' && "выйти из ОЗАРНИК"@[1] == 'ы' && "выйти из ОЗАРНИК"@[2] == 'й' && "выйти из ОЗАРНИК"@[9] == 'О' && "выйти из ОЗАРНИК"@[10] == 'З');
    reveal_strlit("задать или посмотреть цель для долгой задачи");
    assert("задать или посмотреть цель для долгой задачи"@.len() == 44 && "задать или посмотреть цель для долгой задачи"@[0] == 'з' && "задать или посмотреть цель для долгой задачи"@[1] == 'а' && "задать или посмотреть цель для долгой задачи"@[2] == 'д' && "задать или посмотреть цель для долгой задачи"@[9] == 'и' && "задать или посмотреть цель для долгой задачи"@[10] == ' ');
    reveal_strlit("использовать навыки для улучшения работы ОЗАРНИК над конкретными задачами");
    assert("использовать навыки для улучшения работы ОЗАРНИК над конкретными задачами"@.len() == 73 && "использовать навыки для улучшения работы ОЗАРНИК над конкретными задачами"@[0] == 'и' && "использовать навыки для улучшения работы ОЗАРНИК над конкретными задачами"@[1] == 'с' && "использовать навыки для улучшения работы ОЗАРНИК над конкретными задачами"@[2] == 'п' && "использовать навыки для улучшения работы ОЗАРНИК над конкретными задачами"@[9] == 'а' && "использовать навыки для улучшения работы ОЗАРНИК над конкретными задачами"@[10] == 'т');
    reveal_strlit("настроить использование и генерацию памяти");
    assert("настроить использование и генерацию памяти"@.len() == 42 && "настроить использование и генерацию памяти"@[0] == 'н' && "настроить использование и генерацию памяти"@[1] == 'а' && "настроить использование и генерацию памяти"@[2] == 'с' && "настроить использование и генерацию памяти"@[9] == ' ' && "настроить использование и генерацию памяти"@[10] == 'и');
    reveal_strlit("настроить микрофон/динамик realtime");
    assert("настроить микрофон/динамик realtime"@.len() == 35 && "настроить микрофон/динамик realtime"@[0] == 'н' && "настроить микрофон/динамик realtime"@[1] == 'а' && "настроить микрофон/динамик realtime"@[2] == 'с' && "настроить микрофон/динамик realtime"@[9] == ' ' && "настроить микрофон/динамик realtime"@[10] == 'м');
    reveal_strlit("настроить песочницу с повышенными правами");
    assert("настроить песочницу с повышенными правами"@.len() == 41 && "настроить песочницу с повышенными правами"@[0] == 'н' && "настроить песочницу с повышенными правами"@[1] == 'а' && "настроить песочницу с повышенными правами"@[2] == 'с' && "настроить песочницу с повышенными правами"@[9] == ' ' && "настроить песочницу с повышенными правами"@[10] == 'п');
    reveal_strlit("настроить что показывать в заголовке терминала");
    assert("настроить что показывать в заголовке терминала"@.len() == 46 && "настроить что показывать в заголовке терминала"@[0] == 'н' && "настроить что показывать в заголовке терминала"@[1] == 'а' && "настроить что показывать в заголовке терминала"@[2] == 'с' && "настроить что показывать в заголовке терминала"@[9] == ' ' && "настроить что показывать в заголовке терминала"@[10] == 'ч');
    reveal_strlit("настроить что показывать в строке статуса");
    assert("настроить что показывать в строке статуса"@.len() == 41 && "настроить что показывать в строке статуса"@[0] == 'н' && "настроить что показывать в строке статуса"@[1] == 'а' && "настроить что показывать в строке статуса"@[2] == 'с' && "настроить что показывать в строке статуса"@[9] == ' ' && "настроить что показывать в строке статуса"@[10] == 'ч');
    reveal_strlit("начать новый чат во время разговора");
    assert("начать новый чат во время разговора"@.len() == 35 && "начать новый чат во время разговора"@[0] == 'н' && "начать новый чат во время разговора"@[1] == 'а' && "начать новый чат во время разговора"@[2] == 'ч' && "начать новый чат во время разговора"@[9] == 'в' && "начать новый чат во время разговора"@[10] == 'ы');
    reveal_strlit("начать побочный разговор в эфемерном форке");
    assert("начать побочный разговор в эфемерном форке"@.len() == 42 && "начать побочный разговор в эфемерном форке"@[0] == 'н' && "начать побочный разговор в эфемерном форке"@[1] == 'а' && "начать побочный разговор в эфемерном форке"@[2] == 'ч' && "начать побочный разговор в эфемерном форке"@[9] == 'б' && "начать побочный разговор в эфемерном форке"@[10] == 'о');
    reveal_strlit("одобрить один повтор недавнего auto-review отказа");
    assert("одобрить один повтор недавнего auto-review отказа"@.len() == 49 && "одобрить один повтор недавнего auto-review отказа"@[0] == 'о' && "одобрить один повтор недавнего auto-review отказа"@[1] == 'д' && "одобрить один повтор недавнего auto-review отказа"@[2] == 'о' && "одобрить один повтор недавнего auto-review отказа"@[9] == 'о' && "одобрить один повтор недавнего auto-review отказа"@[10] == 'д');
    reveal_strlit("остановить все фоновые терминалы");
    assert("остановить все фоновые терминалы"@.len() == 32 && "остановить все фоновые терминалы"@[0] == 'о' && "остановить все фоновые терминалы"@[1] == 'с' && "остановить все фоновые терминалы"@[2] == 'т' && "остановить все фоновые терминалы"@[9] == 'ь' && "остановить все фоновые терминалы"@[10] == ' ');
    reveal_strlit("отправить логи разработчикам");
    assert("отправить логи разработчикам"@.len() == 28 && "отправить логи разработчикам"@[0] == 'о' && "отправить логи разработчикам"@[1] == 'т' && "отправить логи разработчикам"@[2] == 'п' && "отправить логи разработчикам"@[9] == ' ' && "отправить логи разработчикам"@[10] == 'л');
    reveal_strlit("очистить терминал и начать новый чат");
    assert("очистить терминал и начать новый чат"@.len() == 36 && "очистить терминал и начать новый чат"@[0] == 'о' && "очистить терминал и начать новый чат"@[1] == 'ч' && "очистить терминал и начать новый чат"@[2] == 'и' && "очистить терминал и начать новый чат"@[9] == 'т' && "очистить терминал и начать новый чат"@[10] == 'е');
    reveal_strlit("переименовать текущий тред");
    assert("переименовать текущий тред"@.len() == 26 && "переименовать текущий тред"@[0] == 'п' && "переименовать текущий тред"@[1] == 'е' && "переименовать текущий тред"@[2] == 'р' && "переименовать текущий тред"@[9] == 'в' && "переименовать текущий тред"@[10] == 'а');
    reveal_strlit("перейти в режим Plan");
    assert("перейти в режим Plan"@.len() == 20 && "перейти в режим Plan"@[0] == 'п' && "перейти в режим Plan"@[1] == 'е' && "перейти в режим Plan"@[2] == 'р' && "перейти в режим Plan"@[9] == ' ' && "перейти в режим Plan"@[10] == 'р');
    reveal_strlit("переключить Vim-режим в редакторе ввода");
    assert("переключить Vim-режим в редакторе ввода"@.len() == 39 && "переключить Vim-режим в редакторе ввода"@[0] == 'п' && "переключить Vim-режим в редакторе ввода"@[1] == 'е' && "переключить Vim-режим в редакторе ввода"@[2] == 'р' && "переключить Vim-режим в редакторе ввода"@[9] == 'т' && "переключить Vim-режим в редакторе ввода"@[10] == 'ь');
    reveal_strlit("переключить raw-режим прокрутки для удобного выделения мышью");
    assert("переключить raw-режим прокрутки для удобного выделения мышью"@.len() == 60 && "переключить raw-режим прокрутки для удобного выделения мышью"@[0] == 'п' && "переключить raw-режим прокрутки для удобного выделения мышью"@[1] == 'е' && "переключить raw-режим прокрутки для удобного выделения мышью"@[2] == 'р' && "переключить raw-режим прокрутки для удобного выделения мышью"@[9] == 'т' && "переключить raw-режим прокрутки для удобного выделения мышью"@[10] == 'ь');
    reveal_strlit("переключить активный agent-тред");
    assert("переключить активный agent-тред"@.len() == 31 && "переключить активный agent-тред"@[0] == 'п' && "переключить активный agent-тред"@[1] == 'е' && "переключить активный agent-тред"@[2] == 'р' && "переключить активный agent-тред"@[9] == 'т' && "переключить активный agent-тред"@[10] == 'ь');
    reveal_strlit("переключить голосовой режим (экспериментально)");
    assert("переключить голосовой режим (экспериментально)"@.len() == 46 && "переключить голосовой режим (экспериментально)"@[0] == 'п' && "переключить голосовой режим (экспериментально)"@[1] == 'е' && "переключить голосовой режим (экспериментально)"@[2] == 'р' && "переключить голосовой режим (экспериментально)"@[9] == 'т' && "переключить голосовой режим (экспериментально)"@[10] == 'ь');
    reveal_strlit("переключить экспериментальные функции");
    assert("переключить экспериментальные функции"@.len() == 37 && "переключить экспериментальные функции"@[0] == 'п' && "переключить экспериментальные функции"@[1] == 'е' && "переключить экспериментальные функции"@[2] == 'р' && "переключить экспериментальные функции"@[9] == 'т' && "переключить экспериментальные функции"@[10] == 'ь');
    reveal_strlit("переназначить горячие клавиши TUI");
    assert("переназначить горячие клавиши TUI"@.len() == 33 && "переназначить горячие клавиши TUI"@[0] == 'п' && "переназначить горячие клавиши TUI"@[1] == 'е' && "переназначить горячие клавиши TUI"@[2] == 'р' && "переназначить горячие клавиши TUI"@[9] == 'ч' && "переназначить горячие клавиши TUI"@[10] == 'и');
    reveal_strlit("подтянуть текущее выделение, открытые файлы и другой контекст из вашей IDE");
    assert("подтянуть текущее выделение, открытые файлы и другой контекст из вашей IDE"@.len() == 74 && "подтянуть текущее выделение, открытые файлы и другой контекст из вашей IDE"@[0] == 'п' && "подтянуть текущее выделение, открытые файлы и другой контекст из вашей IDE"@[1] == 'о' && "подтянуть текущее выделение, открытые файлы и другой контекст из вашей IDE"@[2] == 'д' && "подтянуть текущее выделение, открытые файлы и другой контекст из вашей IDE"@[9] == ' ' && "подтянуть текущее выделение, открытые файлы и другой контекст из вашей IDE"@[10] == 'т');
    reveal_strlit("показать git diff (включая неотслеживаемые файлы)");
    assert("показать git diff (включая неотслеживаемые файлы)"@.len() == 49 && "показать git diff (включая неотслеживаемые файлы)"@[0] == 'п' && "показать git diff (включая неотслеживаемые файлы)"@[1] == 'о' && "показать git diff (включая неотслеживаемые файлы)"@[2] == 'к' && "показать git diff (включая неотслеживаемые файлы)"@[9] == 'g' && "показать git diff (включая неотслеживаемые файлы)"@[10] == 'i');
    reveal_strlit("показать настройки сессии и использование токенов");
    assert("показать настройки сессии и использование токенов"@.len() == 49 && "показать настройки сессии и использование токенов"@[0] == 'п' && "показать настройки сессии и использование токенов"@[1] == 'о' && "показать настройки сессии и использование токенов"@[2] == 'к' && "показать настройки сессии и использование токенов"@[9] == 'н' && "показать настройки сессии и использование токенов"@[10] == 'а');
    reveal_strlit("показать путь к rollout-файлу");
    assert("показать путь к rollout-файлу"@.len() == 29 && "показать путь к rollout-файлу"@[0] == 'п' && "показать путь к rollout-файлу"@[1] == 'о' && "показать путь к rollout-файлу"@[2] == 'к' && "показать путь к rollout-файлу"@[9] == 'п' && "показать путь к rollout-файлу"@[10] == 'у');
    reveal_strlit("показать слои конфига и источники требований (для отладки)");
    assert("показать слои конфига и источники требований (для отладки)"@.len() == 58 && "показать слои конфига и источники требований (для отладки)"@[0] == 'п' && "показать слои конфига и источники требований (для отладки)"@[1] == 'о' && "показать слои конфига и источники требований (для отладки)"@[2] == 'к' && "показать слои конфига и источники требований (для отладки)"@[9] == 'с' && "показать слои конфига и источники требований (для отладки)"@[10] == 'л');
    reveal_strlit("посмотреть и настроить lifecycle-хуки");
    assert("посмотреть и настроить lifecycle-хуки"@.len() == 37 && "посмотреть и настроить lifecycle-хуки"@[0] == 'п' && "посмотреть и настроить lifecycle-хуки"@[1] == 'о' && "посмотреть и настроить lifecycle-хуки"@[2] == 'с' && "посмотреть и настроить lifecycle-хуки"@[9] == 'ь' && "посмотреть и настроить lifecycle-хуки"@[10] == ' ');
    reveal_strlit("проверить текущие изменения и найти проблемы");
    assert("проверить текущие изменения и найти проблемы"@.len() == 44 && "проверить текущие изменения и найти проблемы"@[0] == 'п' && "проверить текущие изменения и найти проблемы"@[1] == 'р' && "проверить текущие изменения и найти проблемы"@[2] == 'о' && "проверить текущие изменения и найти проблемы"@[9] == ' ' && "проверить текущие изменения и найти проблемы"@[10] == 'т');
    reveal_strlit("просмотр плагинов");
    assert("просмотр плагинов"@.len() == 17 && "просмотр плагинов"@[0] == 'п' && "просмотр плагинов"@[1] == 'р' && "просмотр плагинов"@[2] == 'о' && "просмотр плагинов"@[9] == 'п' && "просмотр плагинов"@[10] == 'л');
    reveal_strlit("разветвить текущий чат");
    assert("разветвить текущий чат"@.len() == 22 && "разветвить текущий чат"@[0] == 'р' && "разветвить текущий чат"@[1] == 'а' && "разветвить текущий чат"@[2] == 'з' && "разветвить текущий чат"@[9] == 'ь' && "разветвить текущий чат"@[10] == ' ');
    reveal_strlit("разрешить песочнице читать директорию: /sandbox-add-read-dir <абсолютный_путь>");
    assert("разрешить песочнице читать директорию: /sandbox-add-read-dir <абсолютный_путь>"@.len() == 78 && "разрешить песочнице читать директорию: /sandbox-add-read-dir <абсолютный_путь>"@[0] == 'р' && "разрешить песочнице читать директорию: /sandbox-add-read-dir <абсолютный_путь>"@[1] == 'а' && "разрешить песочнице читать директорию: /sandbox-add-read-dir <абсолютный_путь>"@[2] == 'з' && "разрешить песочнице читать директорию: /sandbox-add-read-dir <абсолютный_путь>"@[9] == ' ' && "разрешить песочнице читать директорию: /sandbox-add-read-dir <абсолютный_путь>"@[10] == 'п');
    reveal_strlit("сжать переписку, чтобы не упереться в лимит контекста");
    assert("сжать переписку, чтобы не упереться в лимит контекста"@.len() == 53 && "сжать переписку, чтобы не упереться в лимит контекста"@[0] == 'с' && "сжать переписку, чтобы не упереться в лимит контекста"@[1] == 'ж' && "сжать переписку, чтобы не упереться в лимит контекста"@[2] == 'а' && "сжать переписку, чтобы не упереться в лимит контекста"@[9] == 'е' && "сжать переписку, чтобы не упереться в лимит контекста"@[10] == 'п');
    reveal_strlit("скопировать последний ответ в markdown");
    assert("скопировать последний ответ в markdown"@.len() == 38 && "скопировать последний ответ в markdown"@[0] == 'с' && "скопировать последний ответ в markdown"@[1] == 'к' && "скопировать последний ответ в markdown"@[2] == 'о' && "скопировать последний ответ в markdown"@[9] == 'т' && "скопировать последний ответ в markdown"@[10] == 'ь');
    reveal_strlit("создать файл AGENTS.md с инструкциями для ОЗАРНИК");
    assert("создать файл AGENTS.md с инструкциями для ОЗАРНИК"@.len() == 49 && "создать файл AGENTS.md с инструкциями для ОЗАРНИК"@[0] == 'с' && "создать файл AGENTS.md с инструкциями для ОЗАРНИК"@[1] == 'о' && "создать файл AGENTS.md с инструкциями для ОЗАРНИК"@[2] == 'з' && "создать файл AGENTS.md с инструкциями для ОЗАРНИК"@[9] == 'а' && "создать файл AGENTS.md с инструкциями для ОЗАРНИК"@[10] == 'й');
    reveal_strlit("список настроенных MCP-инструментов; /mcp verbose для подробностей");
    assert("список настроенных MCP-инструментов; /mcp verbose для подробностей"@.len() == 66 && "список настроенных MCP-инструментов; /mcp verbose для подробностей"@[0] == 'с' && "список настроенных MCP-инструментов; /mcp verbose для подробностей"@[1] == 'п' && "список настроенных MCP-инструментов; /mcp verbose для подробностей"@[2] == 'и' && "список настроенных MCP-инструментов; /mcp verbose для подробностей"@[9] == 'с' && "список настроенных MCP-инструментов; /mcp verbose для подробностей"@[10] == 'т');
    reveal_strlit("список фоновых терминалов");
    assert("список фоновых терминалов"@.len() == 25 && "список фоновых терминалов"@[0] == 'с' && "список фоновых терминалов"@[1] == 'п' && "список фоновых терминалов"@[2] == 'и' && "список фоновых терминалов"@[9] == 'н' && "список фоновых терминалов"@[10] == 'о');
    reveal_strlit("тестовый запрос подтверждения");
    assert("тестовый запрос подтверждения"@.len() == 29 && "тестовый запрос подтверждения"@[0] == 'т' && "тестовый запрос подтверждения"@[1] == 'е' && "тестовый запрос подтверждения"@[2] == 'с' && "тестовый запрос подтверждения"@[9] == 'з' && "тестовый запрос подтверждения"@[10] == 'а');
    reveal_strlit("упомянуть файл");
    assert("упомянуть файл"@.len() == 14 && "упомянуть файл"@[0] == 'у' && "упомянуть файл"@[1] == 'п' && "упомянуть файл"@[2] == 'о' && "упомянуть файл"@[9] == ' ' && "упомянуть файл"@[10] == 'ф');
    reveal_strlit("управление приложениями");
    assert("управление приложениями"@.len() == 23 && "управление приложениями"@[0] == 'у' && "управление приложениями"@[1] == 'п' && "управление приложениями"@[2] == 'р' && "управление приложениями"@[9] == 'е' && "управление приложениями"@[10] == ' ');
    if a.description_text() == b.description_text() {
        lemma_equal_descriptions_share_a_group(a, b);
    }
}

/// `desc` quotes an invocation of the command `name`: `/`, the name and a
/// space, in that order, somewhere in it.
pub open spec fn quotes_invocation(desc: Seq<char>, name: Seq<char>) -> bool {
    exists|i: int|
        0 <= i && i + name.len() + 2 <= desc.len() && #[trigger] desc.subrange(
            i,
            i + name.len() + 2,
        ) == seq!['/'] + name + seq![' ']
}

/// A text in which no `/` is followed by the first character of `name`
/// quotes no invocation of `name`.
proof fn lemma_no_invocation_of(desc: Seq<char>, name: Seq<char>)
    requires
        name.len() > 0,
        forall|i: int| 0 <= i < desc.len() - 1 ==> !(#[trigger] desc[i] == '/' && desc[i + 1] == name[0]),
    ensures
        !quotes_invocation(desc, name),
{
    if quotes_invocation(desc, name) {
        let i = choose|i: int|
            0 <= i && i + name.len() + 2 <= desc.len() && #[trigger] desc.subrange(
                i,
                i + name.len() + 2,
            ) == seq!['/'] + name + seq![' '];
        let quoted = desc.subrange(i, i + name.len() + 2);
        assert(quoted[0] == desc[i] && quoted[1] == desc[i + 1]);
        assert((seq!['/'] + name + seq![' '])[1] == name[0]);
    }
}

/// A command whose description quotes its own invocation (`/<name> `, as
/// the sandbox and MCP commands do) is one that takes inline arguments.
pub proof fn lemma_quoted_invocations_take_inline_args(c: SlashCommand)
    ensures
        quotes_invocation(c.description_text(), c.name()) ==> c.takes_inline_args(),
{
    if !c.takes_inline_args() {
        match c {
            SlashCommand::Model => {
                reveal_strlit("выбрать модель и уровень reasoning");
                reveal_strlit("model");
                lemma_no_invocation_of(c.description_text(), c.name());
            },
            SlashCommand::Permissions => {
                reveal_strlit("выбрать что ОЗАРНИК разрешено делать");
                reveal_strlit("permissions");
                lemma_no_invocation_of(c.description_text(), c.name());
            },
            SlashCommand::Vim => {
                reveal_strlit("переключить Vim-режим в редакторе ввода");
                reveal_strlit("vim");
                lemma_no_invocation_of(c.description_text(), c.name());
            },
            SlashCommand::ElevateSandbox => {
                reveal_strlit("настроить песочницу с повышенными правами");
                reveal_strlit("setup-default-sandbox");
                lemma_no_invocation_of(c.description_text(), c.name());
            },
            SlashCommand::Experimental => {
                reveal_strlit("переключить экспериментальные функции");
                reveal_strlit("experimental");
                lemma_no_invocation_of(c.description_text(), c.name());
            },
            SlashCommand::AutoReview => {
                reveal_strlit("одобрить один повтор недавнего auto-review отказа");
                reveal_strlit("approve");
                lemma_no_invocation_of(c.description_text(), c.name());
            },
            SlashCommand::Memories => {
                reveal_strlit("настроить использование и генерацию памяти");
                reveal_strlit("memories");
                lemma_no_invocation_of(c.description_text(), c.name());
            },
            SlashCommand::Skills => {
                reveal_strlit("использовать навыки для улучшения работы ОЗАРНИК над конкретными задачами");
                reveal_strlit("skills");
                lemma_no_invocation_of(c.description_text(), c.name());
            },
            SlashCommand::Hooks => {
                reveal_strlit("посмотреть и настроить lifecycle-хуки");
                reveal_strlit("hooks");
                lemma_no_invocation_of(c.description_text(), c.name());
            },
            SlashCommand::New => {
                reveal_strlit("начать новый чат во время разговора");
                reveal_strlit("new");
                lemma_no_invocation_of(c.description_text(), c.name());
            },
            SlashCommand::Fork => {
                reveal_strlit("разветвить текущий чат");
                reveal_strlit("fork");
                lemma_no_invocation_of(c.description_text(), c.name());
            },
            SlashCommand::Init => {
                reveal_strlit("создать файл AGENTS.md с инструкциями для ОЗАРНИК");
                reveal_strlit("init");
                lemma_no_invocation_of(c.description_text(), c.name());
            },
            SlashCommand::Compact => {
                reveal_strlit("сжать переписку, чтобы не упереться в лимит контекста");
                reveal_strlit("compact");
                lemma_no_invocation_of(c.description_text(), c.name());
            },
            SlashCommand::Agent => {
                reveal_strlit("переключить активный agent-тред");
                reveal_strlit("agent");
                lemma_no_invocation_of(c.description_text(), c.name());
            },
            SlashCommand::Copy => {
                reveal_strlit("скопировать последний ответ в markdown");
                reveal_strlit("copy");
                lemma_no_invocation_of(c.description_text(), c.name());
            },
            SlashCommand::Diff => {
                reveal_strlit("показать git diff (включая неотслеживаемые файлы)");
                reveal_strlit("diff");
                lemma_no_invocation_of(c.description_text(), c.name());
            },
            SlashCommand::Mention => {
                reveal_strlit("упомянуть файл");
                reveal_strlit("mention");
                lemma_no_invocation_of(c.description_text(), c.name());
            },
            SlashCommand::Status => {
                reveal_strlit("показать настройки сессии и использование токенов");
                reveal_strlit("status");
                lemma_no_invocation_of(c.description_text(), c.name());
            },
            SlashCommand::DebugConfig => {
                reveal_strlit("показать слои конфига и источники требований (для отладки)");
                reveal_strlit("debug-config");
                lemma_no_invocation_of(c.description_text(), c.name());
            },
            SlashCommand::Title => {
                reveal_strlit("настроить что показывать в заголовке терминала");
                reveal_strlit("title");
                lemma_no_invocation_of(c.description_text(), c.name());
            },
            SlashCommand::Statusline => {
                reveal_strlit("настроить что показывать в строке статуса");
                reveal_strlit("statusline");
                lemma_no_invocation_of(c.description_text(), c.name());
            },
            SlashCommand::Theme => {
                reveal_strlit("выбрать тему подсветки синтаксиса");
                reveal_strlit("theme");
                lemma_no_invocation_of(c.description_text(), c.name());
            },
            SlashCommand::Apps => {
                reveal_strlit("управление приложениями");
                reveal_strlit("apps");
                lemma_no_invocation_of(c.description_text(), c.name());
            },
            SlashCommand::Plugins => {
                reveal_strlit("просмотр плагинов");
                reveal_strlit("plugins");
                lemma_no_invocation_of(c.description_text(), c.name());
            },
            SlashCommand::Logout => {
                reveal_strlit("выйти из ОЗАРНИК");
                reveal_strlit("logout");
                lemma_no_invocation_of(c.description_text(), c.name());
            },
            SlashCommand::Quit => {
                reveal_strlit("выйти из ОЗАРНИК");
                reveal_strlit("quit");
                lemma_no_invocation_of(c.description_text(), c.name());
            },
            SlashCommand::Exit => {
                reveal_strlit("выйти из ОЗАРНИК");
                reveal_strlit("exit");
                lemma_no_invocation_of(c.description_text(), c.name());
            },
            SlashCommand::Feedback => {
                reveal_strlit("отправить логи разработчикам");
                reveal_strlit("feedback");
                lemma_no_invocation_of(c.description_text(), c.name());
            },
            SlashCommand::Rollout => {
                reveal_strlit("показать путь к rollout-файлу");
                reveal_strlit("rollout");
                lemma_no_invocation_of(c.description_text(), c.name());
            },
            SlashCommand::Ps => {
                reveal_strlit("список фоновых терминалов");
                reveal_strlit("ps");
                lemma_no_invocation_of(c.description_text(), c.name());
            },
            SlashCommand::Stop => {
                reveal_strlit("остановить все фоновые терминалы");
                reveal_strlit("stop");
                lemma_no_invocation_of(c.description_text(), c.name());
            },
            SlashCommand::Clear => {
                reveal_strlit("очистить терминал и начать новый чат");
                reveal_strlit("clear");
                lemma_no_invocation_of(c.description_text(), c.name());
            },
            SlashCommand::Personality => {
                reveal_strlit("выбрать стиль общения ОЗАРНИК");
                reveal_strlit("personality");
                lemma_no_invocation_of(c.description_text(), c.name());
            },
            SlashCommand::Realtime => {
                reveal_strlit("переключить голосовой режим (экспериментально)");
                reveal_strlit("realtime");
                lemma_no_invocation_of(c.description_text(), c.name());
            },
            SlashCommand::Settings => {
                reveal_strlit("настроить микрофон/динамик realtime");
                reveal_strlit("settings");
                lemma_no_invocation_of(c.description_text(), c.name());
            },
            SlashCommand::TestApproval => {
                reveal_strlit("тестовый запрос подтверждения");
                reveal_strlit("test-approval");
                lemma_no_invocation_of(c.description_text(), c.name());
            },
            SlashCommand::MultiAgents => {
                reveal_strlit("переключить активный agent-тред");
                reveal_strlit("subagents");
                lemma_no_invocation_of(c.description_text(), c.name());
            },
            SlashCommand::MemoryDrop => {
                reveal_strlit("НЕ ИСПОЛЬЗОВАТЬ");
                reveal_strlit("debug-m-drop");
                lemma_no_invocation_of(c.description_text(), c.name());
            },
            SlashCommand::MemoryUpdate => {
                reveal_strlit("НЕ ИСПОЛЬЗОВАТЬ");
                reveal_strlit("debug-m-update");
                lemma_no_invocation_of(c.description_text(), c.name());
            },
            _ => {},
        }
    }
}

/// Exactly these commands cannot be run while a task is in progress: new,
/// resume, fork, init, compact, model, personality, permissions, keymap, vim,
/// the two sandbox commands, experimental, memories, review, plan, clear,
/// logout, the two memory maintenance commands, theme and pets.
pub proof fn lemma_commands_blocked_during_a_task(c: SlashCommand)
    ensures
        !c.usable_during_task() <==> (c == SlashCommand::New
            || c == SlashCommand::Resume
            || c == SlashCommand::Fork
            || c == SlashCommand::Init
            || c == SlashCommand::Compact
            || c == SlashCommand::Model
            || c == SlashCommand::Personality
            || c == SlashCommand::Permissions
            || c == SlashCommand::Keymap
            || c == SlashCommand::Vim
            || c == SlashCommand::ElevateSandbox
            || c == SlashCommand::SandboxReadRoot
            || c == SlashCommand::Experimental
            || c == SlashCommand::Memories
            || c == SlashCommand::Review
            || c == SlashCommand::Plan
            || c == SlashCommand::Clear
            || c == SlashCommand::Logout
            || c == SlashCommand::MemoryDrop
            || c == SlashCommand::MemoryUpdate
            || c == SlashCommand::Theme
            || c == SlashCommand::Pets),
{
}

/// Exactly copy, raw, diff, mention, status and ide stay available inside a
/// side conversation.
pub proof fn lemma_commands_available_in_a_side_conversation(c: SlashCommand)
    ensures
        c.usable_in_side_conversation() <==> (c == SlashCommand::Copy
            || c == SlashCommand::Raw
            || c == SlashCommand::Diff
            || c == SlashCommand::Mention
            || c == SlashCommand::Status
            || c == SlashCommand::Ide),
{
}

/// Exactly these commands take text after their name.
pub proof fn lemma_commands_taking_inline_args(c: SlashCommand)
    ensures
        c.takes_inline_args() <==> (c == SlashCommand::Review
            || c == SlashCommand::Rename
            || c == SlashCommand::Plan
            || c == SlashCommand::Goal
            || c == SlashCommand::Ide
            || c == SlashCommand::Keymap
            || c == SlashCommand::Mcp
            || c == SlashCommand::Raw
            || c == SlashCommand::Pets
            || c == SlashCommand::Side
            || c == SlashCommand::Btw
            || c == SlashCommand::Resume
            || c == SlashCommand::SandboxReadRoot),
{
}

/// Each command's visibility depends only on the build flag named for it:
/// the sandbox read-root command is shown exactly on Windows, copy exactly
/// off Android, rollout and the test approval exactly with debug
/// assertions, and every other command always.
pub proof fn lemma_visibility_follows_its_flag(c: SlashCommand, target: BuildTarget)
    ensures
        c == SlashCommand::SandboxReadRoot ==> (c.visible_on(target) <==> target.windows),
        c == SlashCommand::Copy ==> (c.visible_on(target) <==> !target.android),
        c == SlashCommand::Rollout || c == SlashCommand::TestApproval ==> (c.visible_on(target)
            <==> target.debug_assertions),
        !(c == SlashCommand::SandboxReadRoot || c == SlashCommand::Copy || c == SlashCommand::Rollout
            || c == SlashCommand::TestApproval) ==> c.visible_on(target),
{
}

/// The name each command is typed with.
pub proof fn lemma_command_names()
    ensures
        SlashCommand::Model.name() == "model"@,
        SlashCommand::Ide.name() == "ide"@,
        SlashCommand::Permissions.name() == "permissions"@,
        SlashCommand::Keymap.name() == "keymap"@,
        SlashCommand::Vim.name() == "vim"@,
        SlashCommand::ElevateSandbox.name() == "setup-default-sandbox"@,
        SlashCommand::SandboxReadRoot.name() == "sandbox-add-read-dir"@,
        SlashCommand::Experimental.name() == "experimental"@,
        SlashCommand::AutoReview.name() == "approve"@,
        SlashCommand::Memories.name() == "memories"@,
        SlashCommand::Skills.name() == "skills"@,
        SlashCommand::Hooks.name() == "hooks"@,
        SlashCommand::Review.name() == "review"@,
        SlashCommand::Rename.name() == "rename"@,
        SlashCommand::New.name() == "new"@,
        SlashCommand::Resume.name() == "resume"@,
        SlashCommand::Fork.name() == "fork"@,
        SlashCommand::Init.name() == "init"@,
        SlashCommand::Compact.name() == "compact"@,
        SlashCommand::Plan.name() == "plan"@,
        SlashCommand::Goal.name() == "goal"@,
        SlashCommand::Agent.name() == "agent"@,
        SlashCommand::Side.name() == "side"@,
        SlashCommand::Btw.name() == "btw"@,
        SlashCommand::Copy.name() == "copy"@,
        SlashCommand::Raw.name() == "raw"@,
        SlashCommand::Diff.name() == "diff"@,
        SlashCommand::Mention.name() == "mention"@,
        SlashCommand::Status.name() == "status"@,
        SlashCommand::DebugConfig.name() == "debug-config"@,
        SlashCommand::Title.name() == "title"@,
        SlashCommand::Statusline.name() == "statusline"@,
        SlashCommand::Theme.name() == "theme"@,
        SlashCommand::Pets.name() == "pets"@,
        SlashCommand::Mcp.name() == "mcp"@,
        SlashCommand::Apps.name() == "apps"@,
        SlashCommand::Plugins.name() == "plugins"@,
        SlashCommand::Logout.name() == "logout"@,
        SlashCommand::Quit.name() == "quit"@,
        SlashCommand::Exit.name() == "exit"@,
        SlashCommand::Feedback.name() == "feedback"@,
        SlashCommand::Rollout.name() == "rollout"@,
        SlashCommand::Ps.name() == "ps"@,
        SlashCommand::Stop.name() == "stop"@,
        SlashCommand::Clear.name() == "clear"@,
        SlashCommand::Personality.name() == "personality"@,
        SlashCommand::Realtime.name() == "realtime"@,
        SlashCommand::Settings.name() == "settings"@,
        SlashCommand::TestApproval.name() == "test-approval"@,
        SlashCommand::MultiAgents.name() == "subagents"@,
        SlashCommand::MemoryDrop.name() == "debug-m-drop"@,
        SlashCommand::MemoryUpdate.name() == "debug-m-update"@,
{
}

/// The description each command is shown with.
pub proof fn lemma_command_descriptions()
    ensures
        SlashCommand::Model.description_text() == "выбрать модель и уровень reasoning"@,
        SlashCommand::Ide.description_text() == "подтянуть текущее выделение, открытые файлы и другой контекст из вашей IDE"@,
        SlashCommand::Permissions.description_text() == "выбрать что ОЗАРНИК разрешено делать"@,
        SlashCommand::Keymap.description_text() == "переназначить горячие клавиши TUI"@,
        SlashCommand::Vim.description_text() == "переключить Vim-режим в редакторе ввода"@,
        SlashCommand::ElevateSandbox.description_text() == "настроить песочницу с повышенными правами"@,
        SlashCommand::SandboxReadRoot.description_text() == "разрешить песочнице читать директорию: /sandbox-add-read-dir <абсолютный_путь>"@,
        SlashCommand::Experimental.description_text() == "переключить экспериментальные функции"@,
        SlashCommand::AutoReview.description_text() == "одобрить один повтор недавнего auto-review отказа"@,
        SlashCommand::Memories.description_text() == "настроить использование и генерацию памяти"@,
        SlashCommand::Skills.description_text() == "использовать навыки для улучшения работы ОЗАРНИК над конкретными задачами"@,
        SlashCommand::Hooks.description_text() == "посмотреть и настроить lifecycle-хуки"@,
        SlashCommand::Review.description_text() == "проверить текущие изменения и найти проблемы"@,
        SlashCommand::Rename.description_text() == "переименовать текущий тред"@,
        SlashCommand::New.description_text() == "начать новый чат во время разговора"@,
        SlashCommand::Resume.description_text() == "возобновить сохранённый чат"@,
        SlashCommand::Fork.description_text() == "разветвить текущий чат"@,
        SlashCommand::Init.description_text() == "создать файл AGENTS.md с инструкциями для ОЗАРНИК"@,
        SlashCommand::Compact.description_text() == "сжать переписку, чтобы не упереться в лимит контекста"@,
        SlashCommand::Plan.description_text() == "перейти в режим Plan"@,
        SlashCommand::Goal.description_text() == "задать или посмотреть цель для долгой задачи"@,
        SlashCommand::Agent.description_text() == "переключить активный agent-тред"@,
        SlashCommand::Side.description_text() == "начать побочный разговор в эфемерном форке"@,
        SlashCommand::Btw.description_text() == "начать побочный разговор в эфемерном форке"@,
        SlashCommand::Copy.description_text() == "скопировать последний ответ в markdown"@,
        SlashCommand::Raw.description_text() == "переключить raw-режим прокрутки для удобного выделения мышью"@,
        SlashCommand::Diff.description_text() == "показать git diff (включая неотслеживаемые файлы)"@,
        SlashCommand::Mention.description_text() == "упомянуть файл"@,
        SlashCommand::Status.description_text() == "показать настройки сессии и использование токенов"@,
        SlashCommand::DebugConfig.description_text() == "показать слои конфига и источники требований (для отладки)"@,
        SlashCommand::Title.description_text() == "настроить что показывать в заголовке терминала"@,
        SlashCommand::Statusline.description_text() == "настроить что показывать в строке статуса"@,
        SlashCommand::Theme.description_text() == "выбрать тему подсветки синтаксиса"@,
        SlashCommand::Pets.description_text() == "выбрать или скрыть питомца в терминале"@,
        SlashCommand::Mcp.description_text() == "список настроенных MCP-инструментов; /mcp verbose для подробностей"@,
        SlashCommand::Apps.description_text() == "управление приложениями"@,
        SlashCommand::Plugins.description_text() == "просмотр плагинов"@,
        SlashCommand::Logout.description_text() == "выйти из ОЗАРНИК"@,
        SlashCommand::Quit.description_text() == "выйти из ОЗАРНИК"@,
        SlashCommand::Exit.description_text() == "выйти из ОЗАРНИК"@,
        SlashCommand::Feedback.description_text() == "отправить логи разработчикам"@,
        SlashCommand::Rollout.description_text() == "показать путь к rollout-файлу"@,
        SlashCommand::Ps.description_text() == "список фоновых терминалов"@,
        SlashCommand::Stop.description_text() == "остановить все фоновые терминалы"@,
        SlashCommand::Clear.description_text() == "очистить терминал и начать новый чат"@,
        SlashCommand::Personality.description_text() == "выбрать стиль общения ОЗАРНИК"@,
        SlashCommand::Realtime.description_text() == "переключить голосовой режим (экспериментально)"@,
        SlashCommand::Settings.description_text() == "настроить микрофон/динамик realtime"@,
        SlashCommand::TestApproval.description_text() == "тестовый запрос подтверждения"@,
        SlashCommand::MultiAgents.description_text() == "переключить активный agent-тред"@,
        SlashCommand::MemoryDrop.description_text() == "НЕ ИСПОЛЬЗОВАТЬ"@,
        SlashCommand::MemoryUpdate.description_text() == "НЕ ИСПОЛЬЗОВАТЬ"@,
{
}

/// Besides their names, `pet` spells the pets command and `clean` the stop
/// command, and nothing else spells a command.
pub proof fn lemma_aliases_parse(s: Seq<char>)
    ensures
        parsed_command("pet"@) == Some(SlashCommand::Pets),
        parsed_command("clean"@) == Some(SlashCommand::Stop),
        parsed_command(s) matches Some(c) ==> s == c.name() || (c == SlashCommand::Pets && s
            == "pet"@) || (c == SlashCommand::Stop && s == "clean"@),
{
    assert(SlashCommand::Pets.is_spelling("pet"@));
    let d = choose|d: SlashCommand| d.is_spelling("pet"@);
    lemma_spellings_are_unique(SlashCommand::Pets, d, "pet"@);
    assert(SlashCommand::Stop.is_spelling("clean"@));
    let e = choose|e: SlashCommand| e.is_spelling("clean"@);
    lemma_spellings_are_unique(SlashCommand::Stop, e, "clean"@);
}

/// The popup lists the commands in their declaration order.
pub proof fn lemma_presentation_order()
    ensures
        all_commands() == seq![
            SlashCommand::Model,
            SlashCommand::Ide,
            SlashCommand::Permissions,
            SlashCommand::Keymap,
            SlashCommand::Vim,
            SlashCommand::ElevateSandbox,
            SlashCommand::SandboxReadRoot,
            SlashCommand::Experimental,
            SlashCommand::AutoReview,
            SlashCommand::Memories,
            SlashCommand::Skills,
            SlashCommand::Hooks,
            SlashCommand::Review,
            SlashCommand::Rename,
            SlashCommand::New,
            SlashCommand::Resume,
            SlashCommand::Fork,
            SlashCommand::Init,
            SlashCommand::Compact,
            SlashCommand::Plan,
            SlashCommand::Goal,
            SlashCommand::Agent,
            SlashCommand::Side,
            SlashCommand::Btw,
            SlashCommand::Copy,
            SlashCommand::Raw,
            SlashCommand::Diff,
            SlashCommand::Mention,
            SlashCommand::Status,
            SlashCommand::DebugConfig,
            SlashCommand::Title,
            SlashCommand::Statusline,
            SlashCommand::Theme,
            SlashCommand::Pets,
            SlashCommand::Mcp,
            SlashCommand::Apps,
            SlashCommand::Plugins,
            SlashCommand::Logout,
            SlashCommand::Quit,
            SlashCommand::Exit,
            SlashCommand::Feedback,
            SlashCommand::Rollout,
            SlashCommand::Ps,
            SlashCommand::Stop,
            SlashCommand::Clear,
            SlashCommand::Personality,
            SlashCommand::Realtime,
            SlashCommand::Settings,
            SlashCommand::TestApproval,
            SlashCommand::MultiAgents,
            SlashCommand::MemoryDrop,
            SlashCommand::MemoryUpdate,
        ],
{
    assert(all_commands() =~= seq![
        SlashCommand::Model,
        SlashCommand::Ide,
        SlashCommand::Permissions,
        SlashCommand::Keymap,
        SlashCommand::Vim,
        SlashCommand::ElevateSandbox,
        SlashCommand::SandboxReadRoot,
        SlashCommand::Experimental,
        SlashCommand::AutoReview,
        SlashCommand::Memories,
        SlashCommand::Skills,
        SlashCommand::Hooks,
        SlashCommand::Review,
        SlashCommand::Rename,
        SlashCommand::New,
        SlashCommand::Resume,
        SlashCommand::Fork,
        SlashCommand::Init,
        SlashCommand::Compact,
        SlashCommand::Plan,
        SlashCommand::Goal,
        SlashCommand::Agent,
        SlashCommand::Side,
        SlashCommand::Btw,
        SlashCommand::Copy,
        SlashCommand::Raw,
        SlashCommand::Diff,
        SlashCommand::Mention,
        SlashCommand::Status,
        SlashCommand::DebugConfig,
        SlashCommand::Title,
        SlashCommand::Statusline,
        SlashCommand::Theme,
        SlashCommand::Pets,
        SlashCommand::Mcp,
        SlashCommand::Apps,
        SlashCommand::Plugins,
        SlashCommand::Logout,
        SlashCommand::Quit,
        SlashCommand::Exit,
        SlashCommand::Feedback,
        SlashCommand::Rollout,
        SlashCommand::Ps,
        SlashCommand::Stop,
        SlashCommand::Clear,
        SlashCommand::Personality,
        SlashCommand::Realtime,
        SlashCommand::Settings,
        SlashCommand::TestApproval,
        SlashCommand::MultiAgents,
        SlashCommand::MemoryDrop,
        SlashCommand::MemoryUpdate,
    ]);
}

} // verus!
