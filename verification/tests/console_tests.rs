use moho_ui::overlays::basic_console::Console as BasicConsole;
use moho_ui::overlays::console::commands::{CommandProcessor, CommandResult};
use moho_ui::overlays::console::output::{ConsoleOutput, MAX_HISTORY, MAX_OUTPUT_LINES};
use moho_ui::overlays::{Console, ConsoleAction};

// The console that only acknowledges commands.

#[test]
fn console_test_new_console() {
    let console = BasicConsole::new();
    assert!(console.input_buffer().is_empty());
    assert!(console.history().is_empty());
    assert_eq!(console.history_index(), None);
    assert!(console.output().len() >= 2);
}

#[test]
fn test_add_output() {
    let mut console = BasicConsole::new();
    let initial_len = console.output().len();
    console.add_output("Test message".to_string());
    assert_eq!(console.output().len(), initial_len + 1);
    assert_eq!(console.output().back(), Some(&"Test message".to_string()));
}

#[test]
fn console_test_output_max_lines() {
    let mut console = BasicConsole::new();
    console.clear();
    for i in 0..MAX_OUTPUT_LINES + 10 {
        console.add_output(format!("Line {}", i));
    }
    assert_eq!(console.output().len(), MAX_OUTPUT_LINES);
    assert_eq!(console.output().back(), Some(&format!("Line {}", MAX_OUTPUT_LINES + 9)));
}

#[test]
fn test_history() {
    let mut console = BasicConsole::new();
    console.set_input("command1".to_string());
    console.execute_command();
    console.set_input("command2".to_string());
    console.execute_command();
    assert_eq!(console.history().len(), 2);
    assert_eq!(console.history()[0], "command1");
    assert_eq!(console.history()[1], "command2");
}

#[test]
fn console_test_history_navigation() {
    let mut console = BasicConsole::new();
    console.set_input("cmd1".to_string());
    console.execute_command();
    console.set_input("cmd2".to_string());
    console.execute_command();

    console.history_up();
    assert_eq!(console.input_buffer(), "cmd2");
    console.history_up();
    assert_eq!(console.input_buffer(), "cmd1");
    console.history_down();
    assert_eq!(console.input_buffer(), "cmd2");
    console.history_down();
    assert_eq!(console.input_buffer(), "");
}

#[test]
fn test_clear_command() {
    let mut console = BasicConsole::new();
    console.add_output("Test 1".to_string());
    console.add_output("Test 2".to_string());
    console.handle_command("clear");
    assert_eq!(console.output().len(), 0);
}

#[test]
fn console_test_help_command() {
    let mut console = BasicConsole::new();
    console.clear();
    console.handle_command("help");
    assert!(console.output().len() > 0);
    assert!(console.output().iter().any(|line| line.contains("Available commands")));
}

#[test]
fn console_test_unknown_command() {
    let mut console = BasicConsole::new();
    console.clear();
    console.handle_command("unknowncommand");
    assert!(console.output().iter().any(|line| line.contains("Unknown command")));
}

#[test]
fn repeated_command_is_recorded_once() {
    let mut console = BasicConsole::new();
    for _ in 0..3 {
        console.set_input("  god ".to_string());
        console.execute_command();
    }
    assert_eq!(console.history().len(), 1);
    assert_eq!(console.history()[0], "god");
    let lines: Vec<&String> = console.output().iter().collect();
    assert_eq!(lines[lines.len() - 1], "God mode command recognized (event will be published)");
    assert_eq!(lines[lines.len() - 2], "> god");
}

#[test]
fn blank_input_is_ignored() {
    let mut console = BasicConsole::new();
    console.set_input("   ".to_string());
    console.execute_command();
    assert_eq!(console.input_buffer(), "   ");
    assert!(console.history().is_empty());
    assert_eq!(console.output().len(), 3);
}

// The command processor.

#[test]
fn commands_test_help_command() {
    let processor = CommandProcessor::new();
    let result = processor.execute("help");
    assert!(!result.messages.is_empty());
    assert!(result.messages.iter().any(|m| m.contains("Available commands")));
    assert_eq!(result.action, ConsoleAction::NoAction);
}

#[test]
fn test_quit_command() {
    let processor = CommandProcessor::new();
    let result = processor.execute("quit");
    assert!(!result.messages.is_empty());
    assert_eq!(result.action, ConsoleAction::Quit);
}

#[test]
fn test_god_command() {
    let processor = CommandProcessor::new();
    let result = processor.execute("god");
    assert!(!result.messages.is_empty());
    assert_eq!(result.action, ConsoleAction::ToggleGodMode);
}

#[test]
fn test_noclip_command() {
    let processor = CommandProcessor::new();
    let result = processor.execute("noclip");
    assert!(!result.messages.is_empty());
    assert_eq!(result.action, ConsoleAction::ToggleNoclip);
}

#[test]
fn test_sun_command_invalid_args() {
    let processor = CommandProcessor::new();
    let result = processor.execute("sun 45");
    assert!(result.messages.iter().any(|m| m.contains("Usage:")));
    assert_eq!(result.action, ConsoleAction::NoAction);
}

#[test]
fn sun_and_time_carry_their_argument_words() {
    let processor = CommandProcessor::new();
    let result = processor.execute("sun 45 60");
    assert!(result.messages.is_empty());
    assert_eq!(result.action, ConsoleAction::SetSunDirection("45".to_string(), "60".to_string()));
    let result = processor.execute("TIME 12.5");
    assert_eq!(result.action, ConsoleAction::SetTimeOfDay("12.5".to_string()));
    let result = processor.execute("time");
    assert_eq!(result.messages[0], "Usage: time <0-24>");
    assert_eq!(result.action, ConsoleAction::NoAction);
}

#[test]
fn commands_test_unknown_command() {
    let processor = CommandProcessor::new();
    let result = processor.execute("unknowncommand");
    assert!(result.messages.iter().any(|m| m.contains("Unknown command")));
    assert_eq!(result.action, ConsoleAction::NoAction);
}

#[test]
fn test_empty_command() {
    let processor = CommandProcessor::new();
    let result = processor.execute("");
    assert_eq!(result.action, ConsoleAction::NoAction);
}

#[test]
fn test_case_insensitive() {
    let processor = CommandProcessor::new();
    assert_eq!(processor.execute("QUIT").action, ConsoleAction::Quit);
    assert_eq!(processor.execute("Quit").action, ConsoleAction::Quit);
    assert_eq!(processor.execute("quit").action, ConsoleAction::Quit);
}

#[test]
fn test_spawn_command_valid() {
    let processor = CommandProcessor::new();
    let result = processor.execute("spawn tree oakwood");
    assert!(!result.messages.is_empty());
    assert_eq!(
        result.action,
        ConsoleAction::Spawn("tree".to_string(), Some("oakwood".to_string()))
    );
}

#[test]
fn test_spawn_command_missing_type() {
    let processor = CommandProcessor::new();
    let result = processor.execute("spawn");
    assert!(result.messages.iter().any(|m| m.contains("Usage:")));
    assert_eq!(result.action, ConsoleAction::NoAction);
}

#[test]
fn test_spawn_command_invalid_type() {
    let processor = CommandProcessor::new();
    let result = processor.execute("spawn 123");
    assert!(result.messages.iter().any(|m| m.contains("Spawning 123")));
    assert_eq!(result.action, ConsoleAction::Spawn("123".to_string(), None));
}

#[test]
fn spawn_joins_extra_arguments_with_single_spaces() {
    let processor = CommandProcessor::new();
    let result = processor.execute("  spawn   tree  oak   tall ");
    assert_eq!(result.messages, vec!["Spawning tree...".to_string()]);
    assert_eq!(
        result.action,
        ConsoleAction::Spawn("tree".to_string(), Some("oak tall".to_string()))
    );
}

#[test]
fn quality_and_debug_view_commands() {
    let processor = CommandProcessor::new();
    let r = processor.execute("r_shadow_quality 2");
    assert_eq!(r.messages, vec!["Shadow quality set to: Medium (2)".to_string()]);
    assert_eq!(r.action, ConsoleAction::SetShadowQuality(2));
    let r = processor.execute("R_SSAO_QUALITY +4");
    assert_eq!(r.messages, vec!["SSAO quality set to: Ultra (4)".to_string()]);
    assert_eq!(r.action, ConsoleAction::SetSsaoQuality(4));
    let r = processor.execute("r_ssao_quality 5");
    assert_eq!(r.messages, vec!["Quality must be between 0 and 4".to_string()]);
    assert_eq!(r.action, ConsoleAction::NoAction);
    let r = processor.execute("r_shadow_quality high");
    assert_eq!(r.messages, vec!["Invalid quality. Must be a number.".to_string()]);
    let r = processor.execute("r_debug_view 4");
    assert_eq!(r.messages, vec!["Debug view set to: Light Level (4)".to_string()]);
    assert_eq!(r.action, ConsoleAction::SetDebugView(4));
    let r = processor.execute("r_debug_view 4294967296");
    assert_eq!(r.messages, vec!["Invalid mode. Must be a number.".to_string()]);
    let r = processor.execute("r_debug_view 99");
    assert_eq!(r.messages, vec!["Debug view set to: Unknown (99)".to_string()]);
}

#[test]
fn unknown_command_quotes_the_word_as_typed() {
    let processor = CommandProcessor::new();
    let r = processor.execute("Fly high");
    assert_eq!(
        r.messages,
        vec!["Unknown command: 'Fly'".to_string(), "Type 'help' for available commands".to_string()]
    );
}

#[test]
fn command_result_constructors() {
    let r = CommandResult::with_action("m".to_string(), ConsoleAction::Close);
    assert_eq!(r.messages, vec!["m".to_string()]);
    assert_eq!(r.action, ConsoleAction::Close);
    let r = CommandResult::message("x".to_string());
    assert_eq!(r.action, ConsoleAction::NoAction);
    let r = CommandResult::action(ConsoleAction::Quit);
    assert!(r.messages.is_empty());
}

// The console.

#[test]
fn mod_test_new_console() {
    let console = Console::new();
    assert!(console.input_buffer().is_empty());
    assert!(console.output().lines().len() >= 2);
}

#[test]
fn test_log() {
    let mut console = Console::new();
    let initial_len = console.output().lines().len();
    console.log("Test message".to_string());
    assert_eq!(console.output().lines().len(), initial_len + 1);
    assert_eq!(console.output().lines().back(), Some(&"Test message".to_string()));
}

#[test]
fn test_clear() {
    let mut console = Console::new();
    console.log("Test 1".to_string());
    console.log("Test 2".to_string());
    console.clear();
    assert_eq!(console.output().lines().len(), 0);
}

#[test]
fn test_execute_help_command() {
    let mut console = Console::new();
    console.clear();
    console.set_input("help".to_string());
    let action = console.execute_command();
    assert_eq!(action, ConsoleAction::NoAction);
    assert!(console.output().lines().iter().any(|line| line.contains("Available commands")));
    assert!(console.input_buffer().is_empty());
}

#[test]
fn test_execute_quit_command() {
    let mut console = Console::new();
    console.set_input("quit".to_string());
    let action = console.execute_command();
    assert_eq!(action, ConsoleAction::Quit);
    assert!(console.input_buffer().is_empty());
}

#[test]
fn test_execute_clear_command() {
    let mut console = Console::new();
    console.log("Test 1".to_string());
    console.log("Test 2".to_string());
    console.set_input("clear".to_string());
    let action = console.execute_command();
    assert_eq!(action, ConsoleAction::NoAction);
    assert_eq!(console.output().lines().len(), 0);
}

#[test]
fn test_execute_unknown_command() {
    let mut console = Console::new();
    console.clear();
    console.set_input("unknowncommand".to_string());
    let action = console.execute_command();
    assert_eq!(action, ConsoleAction::NoAction);
    assert!(console.output().lines().iter().any(|line| line.contains("Unknown command")));
}

#[test]
fn test_reset_on_open() {
    let mut console = Console::new();
    assert!(!console.begin_frame(false));
    assert!(console.take_focus_request());
    assert!(!console.just_opened());
    assert!(!console.focus_input());

    console.reset_on_open();

    assert!(console.just_opened());
    assert!(console.focus_input());
}

#[test]
fn close_key_is_ignored_on_the_opening_frame() {
    let mut console = Console::new();
    assert!(!console.begin_frame(true));
    assert!(console.begin_frame(true));
}

#[test]
fn console_history_navigation_fills_the_input() {
    let mut console = Console::new();
    console.set_input("god".to_string());
    let _ = console.submit();
    console.set_input("noclip".to_string());
    let _ = console.submit();
    console.history_up();
    assert_eq!(console.input_buffer(), "noclip");
    console.history_up();
    assert_eq!(console.input_buffer(), "god");
    console.history_down();
    assert_eq!(console.input_buffer(), "noclip");
    console.history_down();
    assert_eq!(console.input_buffer(), "");
}

// The output and history buffers.

#[test]
fn test_new_output() {
    let output = ConsoleOutput::new();
    assert!(output.lines().len() >= 2);
    assert_eq!(output.history_len(), 0);
    assert_eq!(output.history_index(), None);
}

#[test]
fn test_add_line() {
    let mut output = ConsoleOutput::new();
    let initial_len = output.lines().len();
    output.add_line("Test message".to_string());
    assert_eq!(output.lines().len(), initial_len + 1);
    assert_eq!(output.lines().back(), Some(&"Test message".to_string()));
}

#[test]
fn output_test_output_max_lines() {
    let mut output = ConsoleOutput::new();
    output.clear_output();
    for i in 0..MAX_OUTPUT_LINES + 10 {
        output.add_line(format!("Line {}", i));
    }
    assert_eq!(output.lines().len(), MAX_OUTPUT_LINES);
    assert_eq!(output.lines().back(), Some(&format!("Line {}", MAX_OUTPUT_LINES + 9)));
}

#[test]
fn test_add_to_history() {
    let mut output = ConsoleOutput::new();
    output.add_to_history("cmd1".to_string());
    output.add_to_history("cmd2".to_string());
    assert_eq!(output.history_len(), 2);
    assert_eq!(output.history_index(), None);
}

#[test]
fn output_test_history_navigation() {
    let mut output = ConsoleOutput::new();
    output.add_to_history("cmd1".to_string());
    output.add_to_history("cmd2".to_string());

    let cmd = output.navigate_up();
    assert_eq!(cmd, Some("cmd2".to_string()));
    assert_eq!(output.history_index(), Some(1));

    let cmd = output.navigate_up();
    assert_eq!(cmd, Some("cmd1".to_string()));
    assert_eq!(output.history_index(), Some(0));

    let cmd = output.navigate_up();
    assert_eq!(cmd, Some("cmd1".to_string()));
    assert_eq!(output.history_index(), Some(0));

    let cmd = output.navigate_down();
    assert_eq!(cmd, Some("cmd2".to_string()));
    assert_eq!(output.history_index(), Some(1));

    let cmd = output.navigate_down();
    assert_eq!(cmd, None);
    assert_eq!(output.history_index(), None);
}

#[test]
fn test_clear_output() {
    let mut output = ConsoleOutput::new();
    output.add_line("Test 1".to_string());
    output.add_line("Test 2".to_string());
    output.clear_output();
    assert_eq!(output.lines().len(), 0);
}

#[test]
fn test_history_max_size() {
    let mut output = ConsoleOutput::new();
    for i in 0..MAX_HISTORY + 10 {
        output.add_to_history(format!("cmd{}", i));
    }
    assert_eq!(output.history_len(), MAX_HISTORY);
}

#[test]
fn navigation_on_empty_history_returns_nothing() {
    let mut output = ConsoleOutput::new();
    assert_eq!(output.navigate_up(), None);
    assert_eq!(output.navigate_down(), None);
    assert_eq!(output.history_index(), None);
}
