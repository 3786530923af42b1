use chudtendo::agent::{
    base64_encode, bcd_score, parse_agent_command, parse_button, parse_unsigned, ppm_image,
    rgb_bytes, strip_hex_prefixes, text_is, visible_sprites, AgentCommand,
};
use chudtendo::emulator::session::OamEntry;
use chudtendo::input::JoypadButton;

fn direct(line: &str) -> AgentCommand {
    parse_agent_command(line, false)
}

fn shared(line: &str) -> AgentCommand {
    parse_agent_command(line, true)
}

#[test]
fn press_takes_a_button_and_milliseconds() {
    assert_eq!(direct("press a 200"), AgentCommand::Press { button: JoypadButton::A, millis: 200 });
    assert_eq!(direct("press START"), AgentCommand::Press { button: JoypadButton::Start, millis: 100 });
    assert_eq!(direct("press b soon"), AgentCommand::Press { button: JoypadButton::B, millis: 100 });
    assert_eq!(direct("press"), AgentCommand::PressUsage);
    assert_eq!(direct("press x"), AgentCommand::PressUsage);
}

#[test]
fn hold_keeps_its_duration_as_written() {
    assert_eq!(
        direct("hold right 2.5"),
        AgentCommand::Hold { button: JoypadButton::Right, seconds: Some("2.5".to_owned()) }
    );
    assert_eq!(direct("hold up"), AgentCommand::Hold { button: JoypadButton::Up, seconds: None });
    assert_eq!(direct("hold"), AgentCommand::HoldUsage);
}

#[test]
fn frames_default_depends_on_the_server() {
    assert_eq!(direct("frames"), AgentCommand::Frames { count: 60 });
    assert_eq!(shared("frames"), AgentCommand::Frames { count: 4 });
    assert_eq!(direct("frames 10"), AgentCommand::Frames { count: 10 });
    assert_eq!(direct("frames -3"), AgentCommand::Frames { count: 60 });
}

#[test]
fn down_and_up_press_and_release_on_both_servers() {
    assert_eq!(shared("down a"), AgentCommand::Down { button: JoypadButton::A });
    assert_eq!(shared("up b"), AgentCommand::Release { button: JoypadButton::B });
    assert_eq!(shared("down"), AgentCommand::DownUsage);
    assert_eq!(direct("down a"), AgentCommand::Down { button: JoypadButton::A });
    assert_eq!(direct("up a"), AgentCommand::Release { button: JoypadButton::A });
    assert_eq!(direct("release left"), AgentCommand::Release { button: JoypadButton::Left });
    assert_eq!(direct("release"), AgentCommand::ReleaseUsage);
}

#[test]
fn read_takes_a_hex_address_and_a_count() {
    assert_eq!(direct("read ff40 12"), AgentCommand::Read { address: 0xff40, count: 12 });
    assert_eq!(direct("read 0xC0A0"), AgentCommand::Read { address: 0xc0a0, count: 1 });
    assert_eq!(direct("read zz 2"), AgentCommand::Read { address: 0, count: 2 });
    assert_eq!(direct("read 10000"), AgentCommand::Read { address: 0, count: 1 });
    assert_eq!(direct("read"), AgentCommand::ReadUsage);
}

#[test]
fn other_commands() {
    assert_eq!(direct(""), AgentCommand::Empty);
    assert_eq!(direct("   "), AgentCommand::Empty);
    assert_eq!(direct("screenshot"), AgentCommand::Screenshot);
    assert_eq!(direct("framebytes"), AgentCommand::FrameBytes);
    assert_eq!(direct("gameinfo"), AgentCommand::GameInfo);
    assert_eq!(direct("features"), AgentCommand::GameInfo);
    assert_eq!(direct("  state  "), AgentCommand::State);
    assert_eq!(direct("status"), AgentCommand::Status);
    assert_eq!(direct("save"), AgentCommand::Save { slot: 1 });
    assert_eq!(direct("save 3"), AgentCommand::Save { slot: 3 });
    assert_eq!(direct("save 300"), AgentCommand::Save { slot: 1 });
    assert_eq!(direct("load 8"), AgentCommand::Load { slot: 8 });
    assert_eq!(direct("help"), AgentCommand::Help);
    assert_eq!(direct("bogus 1"), AgentCommand::Unknown { name: "bogus".to_owned() });
}

#[test]
fn numbers_parse_as_rust_reads_them() {
    assert_eq!(parse_unsigned("+12", 10, u64::MAX), Some(12));
    assert_eq!(parse_unsigned("+", 10, u64::MAX), None);
    assert_eq!(parse_unsigned("", 10, u64::MAX), None);
    assert_eq!(parse_unsigned("65535", 10, 0xffff), Some(65535));
    assert_eq!(parse_unsigned("65536", 10, 0xffff), None);
    assert_eq!(parse_unsigned("18446744073709551615", 10, u64::MAX), Some(u64::MAX));
    assert_eq!(parse_unsigned("18446744073709551616", 10, u64::MAX), None);
    assert_eq!(parse_unsigned("1a", 16, 0xffff), Some(0x1a));
    assert_eq!(parse_unsigned("1A", 16, 0xffff), Some(0x1a));
    assert_eq!(parse_unsigned("1a", 10, 0xffff), None);
    assert_eq!(strip_hex_prefixes("0x0xff"), "ff");
    assert_eq!(strip_hex_prefixes("x0"), "x0");
    assert!(text_is("abc", "abc"));
    assert!(!text_is("abc", "abd"));
    assert_eq!(parse_button("Select"), Some(JoypadButton::Select));
    assert_eq!(parse_button("turbo"), None);
}

#[test]
fn base64_matches_the_standard_alphabet() {
    assert_eq!(base64_encode(b""), "");
    assert_eq!(base64_encode(b"M"), "TQ==");
    assert_eq!(base64_encode(b"Ma"), "TWE=");
    assert_eq!(base64_encode(b"Man"), "TWFu");
    assert_eq!(base64_encode(b"hello world"), "aGVsbG8gd29ybGQ=");
    assert_eq!(base64_encode(&[0xff, 0xfe, 0xfd]), "//79");
}

#[test]
fn frames_drop_their_alpha() {
    assert_eq!(rgb_bytes(&[1, 2, 3, 4, 5, 6, 7, 8, 9]), vec![1, 2, 3, 5, 6, 7]);
    let mut framebuffer = vec![0u8; 92160];
    framebuffer[0] = 10;
    framebuffer[1] = 20;
    framebuffer[2] = 30;
    framebuffer[3] = 255;
    let image = ppm_image(&framebuffer);
    assert_eq!(&image[..15], b"P6\n160 144\n255\n");
    assert_eq!(image.len(), 15 + 160 * 144 * 3);
    assert_eq!(&image[15..19], &[10, 20, 30, 0]);
}

#[test]
fn score_reads_bcd_digits() {
    assert_eq!(bcd_score(&[0x01, 0x23, 0x45]), 123450);
    assert_eq!(bcd_score(&[0x99, 0x99, 0x99]), 9999990);
    assert_eq!(bcd_score(&[]), 0);
}

#[test]
fn listed_sprites_are_on_screen() {
    let entries = vec![
        OamEntry { y: 16, x: 8, tile: 1, flags: 0 },
        OamEntry { y: 0, x: 8, tile: 2, flags: 0 },
        OamEntry { y: 160, x: 8, tile: 3, flags: 0 },
        OamEntry { y: 20, x: 0, tile: 4, flags: 0 },
        OamEntry { y: 159, x: 1, tile: 5, flags: 0x20 },
    ];
    let listed = visible_sprites(&entries);
    assert_eq!(listed.len(), 2);
    assert_eq!(listed[0].tile, 1);
    assert_eq!(listed[1].tile, 5);
}
