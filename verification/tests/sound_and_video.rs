use intel8080::bits::test_bit;
use intel8080::intel8080_state::StateIntel8080;
use intel8080::interpreter::PortEvent;
use intel8080::sounds::Invaderwavs;
use intel8080::video::{color_of, get_bits, screen_pixels, PIXEL_COUNT};

#[test]
fn load_sounds_names_ten_clips() {
    let mut wavs = Invaderwavs::default();
    assert!(wavs.sounds.is_empty());
    wavs.load_sounds();
    let expected: Vec<String> = (0..10).map(|i| format!("sounds/res_snd_{}.wav", i)).collect();
    assert_eq!(wavs.sounds, expected);
}

#[test]
fn load_sounds_appends() {
    let mut wavs = Invaderwavs { sounds: vec![String::from("first")] };
    wavs.load_sounds();
    assert_eq!(wavs.sounds.len(), 11);
    assert_eq!(wavs.sounds[0], "first");
    assert_eq!(wavs.sounds[1], "sounds/res_snd_0.wav");
    assert_eq!(wavs.sounds[10], "sounds/res_snd_9.wav");
}

#[test]
fn sound_bit_reads_one_bit() {
    let wavs = Invaderwavs::default();
    for b in 0..8usize {
        assert!(wavs.get_sound_bit(0xff, b));
        assert!(!wavs.get_sound_bit(0x00, b));
        assert_eq!(wavs.get_sound_bit(0xa5, b), (0xa5u8 >> b) & 1 == 1);
        assert_eq!(test_bit(0x5a, b), (0x5au8 >> b) & 1 == 1);
    }
}

#[test]
fn port_three_starts_clips_of_rising_bits() {
    let wavs = Invaderwavs::default();
    assert_eq!(wavs.queued_event(0b0000_1111, 1, 0b0000_0000), (true, vec![0, 1, 2, 3]));
    assert_eq!(wavs.queued_event(0b0000_0101, 1, 0b0000_0001), (true, vec![2]));
    assert_eq!(wavs.queued_event(0b0000_0000, 1, 0b0000_1111), (true, vec![]));
    // Bits above the bank start nothing.
    assert_eq!(wavs.queued_event(0b1111_0000, 1, 0b0000_0000), (true, vec![]));
}

#[test]
fn port_five_starts_clips_of_rising_bits() {
    let wavs = Invaderwavs::default();
    assert_eq!(wavs.queued_event(0b0001_1111, 2, 0b0000_0000), (true, vec![4, 5, 6, 7, 8]));
    assert_eq!(wavs.queued_event(0b0001_0010, 2, 0b0000_0010), (true, vec![8]));
    assert_eq!(wavs.queued_event(0b1110_0000, 2, 0b0000_0000), (true, vec![]));
}

#[test]
fn unchanged_port_is_not_handled() {
    let wavs = Invaderwavs::default();
    assert_eq!(wavs.queued_event(0x0f, 1, 0x0f), (false, vec![]));
    assert_eq!(wavs.queued_event(0x00, 2, 0x00), (false, vec![]));
}

#[test]
fn unknown_bank_is_not_handled() {
    let wavs = Invaderwavs::default();
    assert_eq!(wavs.queued_event(0xff, 0, 0x00), (false, vec![]));
    assert_eq!(wavs.queued_event(0xff, 3, 0x00), (false, vec![]));
}

#[test]
fn cue_sounds_remembers_the_value_handled() {
    let wavs = Invaderwavs::default();
    let mut state = StateIntel8080::default();
    assert_eq!(wavs.cue_sounds(&mut state, PortEvent { port: 3, value: 0b0011 }), vec![0, 1]);
    assert_eq!(state.last_output_3, 0b0011);
    assert_eq!(wavs.cue_sounds(&mut state, PortEvent { port: 3, value: 0b0111 }), vec![2]);
    assert_eq!(state.last_output_3, 0b0111);
    assert_eq!(wavs.cue_sounds(&mut state, PortEvent { port: 5, value: 0b1_0001 }), vec![4, 8]);
    assert_eq!(state.last_output_5, 0b1_0001);
    assert_eq!(wavs.cue_sounds(&mut state, PortEvent { port: 5, value: 0b1_0001 }), Vec::<usize>::new());
    assert_eq!(wavs.cue_sounds(&mut state, PortEvent { port: 4, value: 0xff }), Vec::<usize>::new());
    assert_eq!((state.last_output_3, state.last_output_5), (0b0111, 0b1_0001));
}

#[test]
fn get_bits_lowest_bit_first() {
    let mut bits = vec![false; 8];
    get_bits(0b1000_0101, &mut bits);
    assert_eq!(bits, vec![true, false, true, false, false, false, false, true]);
    get_bits(0x00, &mut bits);
    assert_eq!(bits, vec![false; 8]);
    get_bits(0xff, &mut bits);
    assert_eq!(bits, vec![true; 8]);
}

#[test]
fn get_bits_keeps_further_entries() {
    let mut bits = vec![true; 10];
    get_bits(0x01, &mut bits);
    assert_eq!(
        bits,
        vec![true, false, false, false, false, false, false, false, true, true]
    );
}

#[test]
fn colours_by_column() {
    assert_eq!(color_of(0, false), 0);
    assert_eq!(color_of(40, false), 0);
    assert_eq!(color_of(0, true), 255);
    assert_eq!(color_of(15, true), 255);
    assert_eq!(color_of(16, true), 0b0001_1100);
    assert_eq!(color_of(79, true), 0b0001_1100);
    assert_eq!(color_of(80, true), 255);
    assert_eq!(color_of(200, true), 255);
    assert_eq!(color_of(201, true), 0b1110_0000);
    assert_eq!(color_of(221, true), 0b1110_0000);
    assert_eq!(color_of(222, true), 255);
    assert_eq!(color_of(256 + 16, true), 0b0001_1100);
    assert_eq!(color_of(256 * 100 + 210, true), 0b1110_0000);
}

#[test]
fn screen_of_blank_memory_is_black() {
    let mut state = StateIntel8080::default();
    state.init_mem(&Vec::new());
    let pixels = screen_pixels(&state);
    assert_eq!(pixels.len(), PIXEL_COUNT);
    assert_eq!(pixels.len(), 256 * 224);
    assert!(pixels.iter().all(|p| *p == 0));
}

#[test]
fn screen_pixels_follow_the_video_memory() {
    let mut state = StateIntel8080::default();
    state.init_mem(&Vec::new());
    state.memory[0x2400] = 0b0000_0001; // pixel 0, white
    state.memory[0x2402] = 0b1000_0001; // pixels 16 and 23, green
    state.memory[0x2400 + 26] = 0b0000_0100; // pixel 210, red
    state.memory[0x3fff] = 0b1000_0000; // last pixel, column 255, white
    state.memory[0x23ff] = 0xff; // below the video memory
    let pixels = screen_pixels(&state);
    let mut expected = vec![0u8; 256 * 224];
    expected[0] = 255;
    expected[16] = 0b0001_1100;
    expected[23] = 0b0001_1100;
    expected[210] = 0b1110_0000;
    expected[256 * 224 - 1] = 255;
    assert_eq!(pixels, expected);
}
