use digital_rain::stream::create_streams;
use digital_rain::stream::create_text_stream;
use digital_rain::stream::random_matrix_char;
use digital_rain::stream::StreamColor;

#[test]
fn test_character_generation() {
    let char = random_matrix_char();
    assert!(char.is_alphanumeric());
}

#[test]
fn test_create_text_stream_length_and_symbols() {
    let chars = create_text_stream(7);
    assert_eq!(chars.len(), 7);
    for c in chars {
        assert!(c.is_ascii_alphanumeric());
    }
}

#[test]
fn test_factory_characters_length_and_alphanumeric() {
    let streams = create_streams(4, 10);
    assert_eq!(streams.len(), 4);
    for stream in &streams {
        assert_eq!(stream.characters.len(), 10);
        for &c in &stream.characters {
            assert!(c.is_ascii_alphanumeric());
        }
    }
}

#[test]
fn test_factory_columns_are_exactly_the_range() {
    let streams = create_streams(6, 3);
    let columns: Vec<u16> = streams.iter().map(|s| s.x).collect();
    assert_eq!(columns, vec![0, 1, 2, 3, 4, 5]);
    for i in 0..columns.len() {
        for j in 0..columns.len() {
            if i != j {
                assert_ne!(columns[i], columns[j]);
            }
        }
    }
}

#[test]
fn test_factory_speed_in_range() {
    let streams = create_streams(8, 5);
    for stream in &streams {
        assert!(stream.speed >= 1 && stream.speed <= 3);
    }
}

#[test]
fn test_factory_initial_position_and_color() {
    let streams = create_streams(3, 5);
    for stream in &streams {
        assert_eq!(stream.position, 0);
        assert_eq!(stream.color, StreamColor::Green);
    }
}

#[test]
fn test_factory_zero_width_is_empty() {
    let streams = create_streams(0, 10);
    assert!(streams.is_empty());
}
