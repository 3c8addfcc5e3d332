use std::str::FromStr;

use codex_onlysq::slash_command::built_in_slash_commands;
use codex_onlysq::slash_command::BuildTarget;
use codex_onlysq::slash_command::SlashCommand;

#[test]
fn stop_command_is_canonical_name() {
    assert_eq!(SlashCommand::Stop.command(), "stop");
}

#[test]
fn clean_alias_parses_to_stop_command() {
    assert_eq!(SlashCommand::from_str("clean"), Ok(SlashCommand::Stop));
}

#[test]
fn pet_alias_parses_to_pets_command() {
    assert_eq!(SlashCommand::Pets.command(), "pets");
    assert_eq!(SlashCommand::from_str("pet"), Ok(SlashCommand::Pets));
}

#[test]
fn certain_commands_are_available_during_task() {
    assert!(SlashCommand::Goal.available_during_task());
    assert!(SlashCommand::Ide.available_during_task());
    assert!(SlashCommand::Title.available_during_task());
    assert!(SlashCommand::Statusline.available_during_task());
    assert!(SlashCommand::Raw.available_during_task());
    assert!(SlashCommand::Raw.available_in_side_conversation());
    assert!(SlashCommand::Raw.supports_inline_args());
}

#[test]
fn auto_review_command_is_approve() {
    assert_eq!(SlashCommand::AutoReview.command(), "approve");
    assert_eq!(
        SlashCommand::from_str("approve"),
        Ok(SlashCommand::AutoReview)
    );
}

#[test]
fn every_command_name_parses_back_to_its_command() {
    for c in SlashCommand::all() {
        assert_eq!(SlashCommand::from_name(c.command()), Some(c));
        assert_eq!(SlashCommand::from_str(c.command()), Ok(c));
    }
}

#[test]
fn command_names_follow_kebab_case_and_overrides() {
    assert_eq!(SlashCommand::DebugConfig.command(), "debug-config");
    assert_eq!(SlashCommand::TestApproval.command(), "test-approval");
    assert_eq!(SlashCommand::ElevateSandbox.command(), "setup-default-sandbox");
    assert_eq!(SlashCommand::SandboxReadRoot.command(), "sandbox-add-read-dir");
    assert_eq!(SlashCommand::MultiAgents.command(), "subagents");
    assert_eq!(SlashCommand::MemoryDrop.command(), "debug-m-drop");
    assert_eq!(SlashCommand::MemoryUpdate.command(), "debug-m-update");
    assert_eq!(SlashCommand::Statusline.command(), "statusline");
}

#[test]
fn unknown_and_default_spellings_of_renamed_commands_do_not_parse() {
    assert!(SlashCommand::from_str("elevate-sandbox").is_err());
    assert!(SlashCommand::from_str("auto-review").is_err());
    assert!(SlashCommand::from_str("multi-agents").is_err());
    assert!(SlashCommand::from_str("Model").is_err());
    assert!(SlashCommand::from_str("").is_err());
    assert_eq!(SlashCommand::from_name("/model"), None);
}

#[test]
fn all_lists_each_command_once_in_presentation_order() {
    let all = SlashCommand::all();
    assert_eq!(all.len(), 52);
    assert_eq!(all[0], SlashCommand::Model);
    assert_eq!(all[1], SlashCommand::Ide);
    assert_eq!(all[51], SlashCommand::MemoryUpdate);
    for (i, a) in all.iter().enumerate() {
        for b in all.iter().skip(i + 1) {
            assert_ne!(a, b);
        }
    }
}

#[test]
fn built_ins_depend_on_the_build_target() {
    let release_linux = BuildTarget { windows: false, android: false, debug_assertions: false };
    let list = built_in_slash_commands(release_linux);
    let cmds: Vec<SlashCommand> = list.iter().map(|(_, c)| *c).collect();
    assert_eq!(list.len(), 49);
    assert!(!cmds.contains(&SlashCommand::SandboxReadRoot));
    assert!(!cmds.contains(&SlashCommand::Rollout));
    assert!(!cmds.contains(&SlashCommand::TestApproval));
    assert!(cmds.contains(&SlashCommand::Copy));
    for (name, c) in &list {
        assert_eq!(*name, c.command());
    }
    assert_eq!(list[0], ("model", SlashCommand::Model));

    let debug_windows_android = BuildTarget { windows: true, android: true, debug_assertions: true };
    let list = built_in_slash_commands(debug_windows_android);
    let cmds: Vec<SlashCommand> = list.iter().map(|(_, c)| *c).collect();
    assert_eq!(list.len(), 51);
    assert!(cmds.contains(&SlashCommand::SandboxReadRoot));
    assert!(cmds.contains(&SlashCommand::Rollout));
    assert!(!cmds.contains(&SlashCommand::Copy));
}

#[test]
fn availability_rules() {
    assert!(!SlashCommand::Model.available_during_task());
    assert!(!SlashCommand::Pets.available_during_task());
    assert!(!SlashCommand::Theme.available_during_task());
    assert!(SlashCommand::MultiAgents.available_during_task());
    assert!(SlashCommand::Copy.available_in_side_conversation());
    assert!(!SlashCommand::Model.available_in_side_conversation());
    assert!(SlashCommand::Review.supports_inline_args());
    assert!(!SlashCommand::Quit.supports_inline_args());
}

#[test]
fn descriptions() {
    assert_eq!(SlashCommand::Quit.description(), SlashCommand::Exit.description());
    assert_eq!(SlashCommand::Logout.description(), "выйти из ОЗАРНИК");
    assert_eq!(SlashCommand::Ps.description(), "список фоновых терминалов");
    assert_eq!(SlashCommand::MemoryDrop.description(), "НЕ ИСПОЛЬЗОВАТЬ");
}

#[test]
fn descriptions_that_quote_their_invocation_take_inline_args() {
    for c in SlashCommand::all() {
        if c.description().contains(&format!("/{} ", c.command())) {
            assert!(c.supports_inline_args(), "{:?}", c);
        }
    }
    for c in [SlashCommand::SandboxReadRoot, SlashCommand::Mcp] {
        assert!(c.description().contains(&format!("/{} ", c.command())));
        assert!(c.supports_inline_args());
    }
}
