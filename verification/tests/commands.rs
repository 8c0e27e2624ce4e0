use tobibox::commands::{Command, EQ};

#[test]
fn frame_markers_for_every_variant() {
    let commands = [
        Command::NextSong,
        Command::PrevSong,
        Command::PlayWithIndex(12),
        Command::VolumeUp,
        Command::VolumeDown,
        Command::SetVolume(20),
        Command::SetEQ(EQ::Jazz),
        Command::LoopSong(7),
        Command::SetDevice(true),
        Command::SleepMode,
        Command::WakeUp,
        Command::Reset,
        Command::Play,
        Command::Pause,
        Command::PlayFolder(3, 4),
        Command::SetAmplification(1, 15),
        Command::SetLoopAll(false),
        Command::PlayInMP3Folder(2999),
        Command::PlayAdvert,
        Command::StopAdvert,
        Command::PlayInFolder2(5, 6),
        Command::EnableLoopAll(true),
        Command::LoopFromFolder(7, 8),
        Command::RandomPlayback,
        Command::SetSingleLoopPlay(false),
        Command::SetDAC(true),
        Command::PlaySongWithVolume(9, 10),
    ];
    for cmd in commands {
        let frame = cmd.encode();
        assert_eq!(frame.len(), 8);
        assert_eq!(frame[0], 0x7E);
        assert_eq!(frame[1], 0xFF);
        assert_eq!(frame[2], 0x06);
        assert_eq!(frame[4], 0x00);
        assert_eq!(frame[7], 0xEF);
    }
}

#[test]
fn opcode_table() {
    assert_eq!(Command::NextSong.convert_with_params().0, 0x01);
    assert_eq!(Command::PrevSong.convert_with_params().0, 0x02);
    assert_eq!(Command::PlayWithIndex(1).convert_with_params().0, 0x03);
    assert_eq!(Command::VolumeUp.convert_with_params().0, 0x04);
    assert_eq!(Command::VolumeDown.convert_with_params().0, 0x05);
    assert_eq!(Command::SetVolume(1).convert_with_params().0, 0x06);
    assert_eq!(Command::SetEQ(EQ::Normal).convert_with_params().0, 0x07);
    assert_eq!(Command::LoopSong(1).convert_with_params().0, 0x08);
    assert_eq!(Command::SetDevice(true).convert_with_params().0, 0x09);
    assert_eq!(Command::SleepMode.convert_with_params().0, 0x0A);
    assert_eq!(Command::WakeUp.convert_with_params().0, 0x0B);
    assert_eq!(Command::Reset.convert_with_params().0, 0x0C);
    assert_eq!(Command::Play.convert_with_params().0, 0x0D);
    assert_eq!(Command::Pause.convert_with_params().0, 0x0E);
    assert_eq!(Command::PlayFolder(1, 2).convert_with_params().0, 0x0F);
    assert_eq!(Command::SetAmplification(1, 2).convert_with_params().0, 0x10);
    assert_eq!(Command::SetLoopAll(true).convert_with_params().0, 0x11);
    assert_eq!(Command::PlayInMP3Folder(1).convert_with_params().0, 0x12);
    assert_eq!(Command::PlayAdvert.convert_with_params().0, 0x13);
    assert_eq!(Command::PlayInFolder2(1, 2).convert_with_params().0, 0x14);
    assert_eq!(Command::StopAdvert.convert_with_params().0, 0x15);
    assert_eq!(Command::EnableLoopAll(true).convert_with_params().0, 0x16);
    assert_eq!(Command::LoopFromFolder(1, 2).convert_with_params().0, 0x17);
    assert_eq!(Command::RandomPlayback.convert_with_params().0, 0x18);
    assert_eq!(Command::SetSingleLoopPlay(true).convert_with_params().0, 0x19);
    assert_eq!(Command::SetDAC(true).convert_with_params().0, 0x1A);
    assert_eq!(Command::PlaySongWithVolume(1, 2).convert_with_params().0, 0x22);
}

#[test]
fn sixteen_bit_params_are_big_endian() {
    // P2 scenario: SetVolume(20) -> params (0x00, 0x14).
    assert_eq!(Command::SetVolume(20).convert_with_params(), (0x06, 0x00, 0x14));
    assert_eq!(
        Command::SetVolume(20).encode(),
        [0x7E, 0xFF, 0x06, 0x06, 0x00, 0x00, 0x14, 0xEF]
    );
    assert_eq!(Command::PlayWithIndex(0x1234).convert_with_params(), (0x03, 0x12, 0x34));
    assert_eq!(Command::PlayInMP3Folder(3000).convert_with_params(), (0x12, 0x0B, 0xB8));
    assert_eq!(Command::LoopSong(0xFFFF).convert_with_params(), (0x08, 0xFF, 0xFF));
    assert_eq!(Command::LoopSong(0x0102).convert_with_params(), (0x08, 0x01, 0x02));
}

#[test]
fn split_round_trips() {
    assert_eq!(tobibox::commands::split(&0x1234), (0x12, 0x34));
    assert_eq!(tobibox::commands::split(&0), (0x00, 0x00));
    assert_eq!(tobibox::commands::split(&0xFFFF), (0xFF, 0xFF));
    let value: u16 = 0xABCD;
    let (hi, lo) = tobibox::commands::split(&value);
    assert_eq!((hi as u16) * 256 + lo as u16, value);
}

#[test]
fn two_byte_params_pass_through() {
    assert_eq!(Command::SetAmplification(1, 15).convert_with_params(), (0x10, 0x01, 0x0F));
    assert_eq!(Command::PlayFolder(4, 200).convert_with_params(), (0x0F, 0x04, 0xC8));
    assert_eq!(Command::PlaySongWithVolume(9, 30).convert_with_params(), (0x22, 0x09, 0x1E));
}

#[test]
fn bool_params_keep_param1_zero() {
    // Contrast with SetAmplification above: boolean variants fix param1 at 0.
    assert_eq!(Command::SetDAC(true).convert_with_params(), (0x1A, 0x00, 0x01));
    assert_eq!(Command::SetDAC(false).convert_with_params(), (0x1A, 0x00, 0x00));
    assert_eq!(Command::SetDevice(true).convert_with_params(), (0x09, 0x00, 0x01));
    assert_eq!(Command::SetLoopAll(false).convert_with_params(), (0x11, 0x00, 0x00));
    assert_eq!(Command::EnableLoopAll(true).convert_with_params(), (0x16, 0x00, 0x01));
    assert_eq!(Command::SetSingleLoopPlay(false).convert_with_params(), (0x19, 0x00, 0x00));
}

#[test]
fn eq_presets_encode_as_ordinals() {
    assert_eq!(Command::SetEQ(EQ::Normal).convert_with_params(), (0x07, 0x00, 0x00));
    assert_eq!(Command::SetEQ(EQ::Pop).convert_with_params(), (0x07, 0x00, 0x01));
    assert_eq!(Command::SetEQ(EQ::Rock).convert_with_params(), (0x07, 0x00, 0x02));
    assert_eq!(Command::SetEQ(EQ::Jazz).convert_with_params(), (0x07, 0x00, 0x03));
    assert_eq!(Command::SetEQ(EQ::Classic).convert_with_params(), (0x07, 0x00, 0x04));
    assert_eq!(Command::SetEQ(EQ::Base).convert_with_params(), (0x07, 0x00, 0x05));
}

#[test]
fn parameterless_commands_have_zero_params() {
    assert_eq!(Command::Reset.convert_with_params(), (0x0C, 0x00, 0x00));
    assert_eq!(Command::VolumeDown.encode(), [0x7E, 0xFF, 0x06, 0x05, 0x00, 0x00, 0x00, 0xEF]);
    assert_eq!(Command::Play.encode(), [0x7E, 0xFF, 0x06, 0x0D, 0x00, 0x00, 0x00, 0xEF]);
}
