use tclock::clock::{draw_colon, render_colon, Clock};
use tclock::frame::{Edges, Frame};
use tclock::geometry::Rect;
use tclock::paint::{buffer_holds, buffer_is_sound, fill_background, render_background};
use tclock::style::{Colour, Hue, Style};
use tclock::time::Timestamp;
use tui::buffer::Buffer;
use tui::style::Color;

fn screen(x: u16, y: u16, width: u16, height: u16) -> Buffer {
    Buffer::empty(tui::layout::Rect { x, y, width, height })
}

fn at(hour: u8, minute: u8, second: u8) -> Clock {
    Clock::with_datetime(Timestamp::new(hour, minute, second).unwrap())
}

/// The rows of the buffer: `#` for a full block, `:` for a blank on a
/// coloured background, `.` for anything else.
fn picture(buf: &Buffer) -> Vec<String> {
    let area = *buf.area();
    (area.top()..area.bottom())
        .map(|y| {
            (area.left()..area.right())
                .map(|x| {
                    let cell = buf.get(x, y);
                    if cell.symbol == "\u{2588}" {
                        '#'
                    } else if cell.symbol == " " && cell.style.bg != Color::Reset {
                        ':'
                    } else {
                        '.'
                    }
                })
                .collect()
        })
        .collect()
}

/// The corner of the clock: the leftmost column and topmost row that hold a
/// drawn cell.
fn corner(buf: &Buffer) -> (u16, u16) {
    let area = *buf.area();
    let rows = picture(buf);
    let top = rows.iter().position(|row| row.contains('#')).unwrap();
    let left = rows.iter().filter_map(|row| row.find('#')).min().unwrap();
    (area.x + left as u16, area.y + top as u16)
}

#[test]
fn five_past_two_in_the_afternoon() {
    let mut buf = screen(0, 0, 51, 5);
    assert!(at(14, 5, 9).render(Rect::new(0, 0, 51, 5), &mut buf));
    assert_eq!(
        picture(&buf),
        vec![
            "....##.##..##......######.######......######.######",
            "....##.##..##..::..##..##.##......::..##..##.##..##",
            "....##.######......##..##.######......##..##.######",
            "....##.....##..::..##..##.....##..::..##..##.....##",
            "....##.....##......######.######......######.######",
        ]
    );
}

#[test]
fn each_digit_of_the_time_stands_at_its_offset() {
    let digits = [(0, "1"), (7, "4"), (19, "0"), (26, "5"), (38, "0"), (45, "9")];
    let alone: Vec<Vec<String>> = vec![
        vec!["....##", "....##", "....##", "....##", "....##"],
        vec!["##..##", "##..##", "######", "....##", "....##"],
        vec!["######", "##..##", "##..##", "##..##", "######"],
        vec!["######", "##....", "######", "....##", "######"],
        vec!["######", "##..##", "##..##", "##..##", "######"],
        vec!["######", "##..##", "######", "....##", "######"],
    ]
    .into_iter()
    .map(|rows| rows.into_iter().map(String::from).collect())
    .collect();
    let mut buf = screen(4, 2, 60, 9);
    assert!(at(14, 5, 9).render(Rect::new(6, 3, 51, 5), &mut buf));
    let rows = picture(&buf);
    for ((offset, name), expected) in digits.iter().zip(alone) {
        let from = 2 + offset;
        let seen: Vec<String> =
            rows[1..6].iter().map(|row| row[from..from + 6].to_string()).collect();
        assert_eq!(seen, expected, "digit {name} at offset {offset}");
    }
}

#[test]
fn midnight_and_the_last_seconds_of_the_day() {
    let mut buf = screen(0, 0, 51, 5);
    assert!(at(0, 0, 0).render(Rect::new(0, 0, 51, 5), &mut buf));
    assert_eq!(
        picture(&buf),
        vec![
            "######.######......######.######......######.######",
            "##..##.##..##..::..##..##.##..##..::..##..##.##..##",
            "##..##.##..##......##..##.##..##......##..##.##..##",
            "##..##.##..##..::..##..##.##..##..::..##..##.##..##",
            "######.######......######.######......######.######",
        ]
    );
    let mut buf = screen(0, 0, 51, 5);
    assert!(at(23, 59, 58).render(Rect::new(0, 0, 51, 5), &mut buf));
    assert_eq!(
        picture(&buf),
        vec![
            "######.######......######.######......######.######",
            "....##.....##..::..##.....##..##..::..##.....##..##",
            "######.######......######.######......######.######",
            "##.........##..::......##.....##..::......##.##..##",
            "######.######......######.######......######.######",
        ]
    );
}

#[test]
fn an_area_too_narrow_or_too_low_is_left_alone() {
    let sizes = [(50, 5), (51, 4), (50, 4), (0, 0), (200, 4), (50, 200), (1, 1)];
    for (width, height) in sizes {
        for clock in [
            at(12, 34, 56),
            at(12, 34, 56).center(true),
            at(12, 34, 56).style(Style::default().bg(Colour::Plain(Hue::Blue))),
        ] {
            let mut buf = screen(0, 0, 220, 220);
            buf.set_string(0, 0, "kept", tui::style::Style::default().fg(Color::Red));
            let before = buf.clone();
            assert!(clock.render(Rect::new(0, 0, width, height), &mut buf));
            assert!(buf == before, "{width} by {height}");
        }
    }
}

#[test]
fn a_clock_that_is_not_centred_stands_at_the_corner_of_its_area() {
    let mut buf = screen(0, 0, 80, 24);
    assert!(at(0, 0, 0).render(Rect::new(7, 3, 51, 5), &mut buf));
    assert_eq!(corner(&buf), (7, 3));
    assert_eq!(buf.get(7, 3).symbol, "\u{2588}");
    assert_eq!(buf.get(6, 3).symbol, " ");
    assert_eq!(buf.get(7, 2).symbol, " ");

    let mut buf = screen(0, 0, 80, 24);
    assert!(at(0, 0, 0).render(Rect::new(7, 3, 70, 20), &mut buf));
    assert_eq!(corner(&buf), (7, 3));
}

#[test]
fn origin_of_a_clock_that_is_not_centred() {
    let clock = at(1, 2, 3);
    assert_eq!(clock.origin(Rect::new(7, 3, 51, 5)), Some((7, 3)));
    assert_eq!(clock.origin(Rect::new(7, 3, 70, 20)), Some((7, 3)));
    assert_eq!(clock.origin(Rect::new(7, 3, 50, 5)), None);
    assert_eq!(clock.origin(Rect::new(7, 3, 51, 4)), None);
}

#[test]
fn origin_of_a_centred_clock_rounds_towards_the_corner() {
    let clock = at(1, 2, 3).center(true);
    assert_eq!(clock.origin(Rect::new(0, 0, 53, 7)), Some((1, 1)));
    assert_eq!(clock.origin(Rect::new(0, 0, 52, 5)), Some((0, 0)));
    assert_eq!(clock.origin(Rect::new(10, 20, 53, 7)), Some((11, 21)));
    assert_eq!(clock.origin(Rect::new(10, 20, 52, 5)), Some((10, 20)));
    assert_eq!(clock.origin(Rect::new(10, 20, 51, 5)), Some((10, 20)));
    assert_eq!(clock.origin(Rect::new(0, 0, 80, 24)), Some((14, 9)));
    assert_eq!(clock.origin(Rect::new(0, 0, 54, 8)), Some((1, 1)));
    assert_eq!(clock.origin(Rect::new(0, 0, 55, 9)), Some((2, 2)));
    assert_eq!(clock.origin(Rect::new(0, 0, 50, 9)), None);
    assert_eq!(clock.origin(Rect::new(65000, 65000, 535, 535)), Some((65242, 65265)));
}

#[test]
fn a_centred_clock_is_drawn_at_its_origin() {
    for (width, height, left, top) in [(53, 7, 1, 1), (52, 5, 0, 0), (80, 24, 14, 9)] {
        let mut buf = screen(5, 6, 100, 30);
        let clock = at(0, 0, 0).center(true);
        assert!(clock.render(Rect::new(5, 6, width, height), &mut buf));
        assert_eq!(corner(&buf), (5 + left, 6 + top), "{width} by {height}");
    }
}

#[test]
fn a_colon_is_two_blanks_on_the_colour_in_two_rows() {
    let mut buf = screen(0, 0, 51, 5);
    assert!(at(12, 34, 56).render(Rect::new(0, 0, 51, 5), &mut buf));
    for x in [15, 16, 34, 35] {
        for y in 0..5 {
            let cell = buf.get(x, y);
            assert_eq!(cell.symbol, " ");
            assert_eq!(cell.style.fg, Color::Reset);
            let expected = if y == 1 || y == 3 { Color::Green } else { Color::Reset };
            assert_eq!(cell.style.bg, expected, "column {x}, row {y}");
        }
    }
    for x in [14, 17, 18, 33, 36, 37] {
        for y in 0..5 {
            assert_eq!(buf.get(x, y).style.bg, Color::Reset);
        }
    }
}

#[test]
fn draw_colon_writes_four_cells() {
    let mut buf = screen(2, 2, 4, 5);
    let before = buf.clone();
    draw_colon(3, 2, &mut buf, Style::default().bg(Colour::Bright(Hue::Red)));
    for y in 2..7 {
        for x in 2..6 {
            let cell = buf.get(x, y);
            if (x == 3 || x == 4) && (y == 3 || y == 5) {
                assert_eq!(cell.symbol, " ");
                assert_eq!(cell.style, tui::style::Style::default().bg(Color::LightRed));
            } else {
                assert_eq!(cell, before.get(x, y));
            }
        }
    }
}

#[test]
fn digits_and_colons_take_the_foreground_of_the_style() {
    let mut buf = screen(0, 0, 51, 5);
    let clock = at(8, 8, 8).style(Style::default().fg(Colour::Bright(Hue::Cyan)));
    assert!(clock.render(Rect::new(0, 0, 51, 5), &mut buf));
    assert_eq!(buf.get(0, 0).symbol, "\u{2588}");
    assert_eq!(buf.get(0, 0).style.fg, Color::LightCyan);
    assert_eq!(buf.get(0, 0).style.bg, Color::Reset);
    assert_eq!(buf.get(15, 1).symbol, " ");
    assert_eq!(buf.get(15, 1).style.bg, Color::LightCyan);
    assert_eq!(buf.get(15, 1).style.fg, Color::Reset);
}

#[test]
fn a_clock_without_a_foreground_is_green() {
    for clock in [
        at(8, 8, 8),
        at(8, 8, 8).style(Style::default()),
        at(8, 8, 8).style(Style::default().bg(Colour::Plain(Hue::Blue))),
        at(8, 8, 8).style(Style::default().fg(Colour::Plain(Hue::Green))),
    ] {
        assert_eq!(clock.ink(), Colour::Plain(Hue::Green));
        let mut buf = screen(0, 0, 51, 5);
        assert!(clock.render(Rect::new(0, 0, 51, 5), &mut buf));
        assert_eq!(buf.get(0, 0).symbol, "\u{2588}");
        assert_eq!(buf.get(0, 0).style, tui::style::Style::default().fg(Color::Green));
        assert_eq!(buf.get(15, 1).symbol, " ");
        assert_eq!(buf.get(15, 1).style, tui::style::Style::default().bg(Color::Green));
    }
    let red = at(8, 8, 8).style(Style::default().fg(Colour::Plain(Hue::Red)));
    assert_eq!(red.ink(), Colour::Plain(Hue::Red));
}

#[test]
fn a_new_clock_is_plain_and_neither_centred_nor_framed() {
    let clock = at(1, 2, 3);
    assert_eq!(clock.style, Style::default());
    assert!(!clock.center);
    assert!(clock.block.is_none());
    assert_eq!(
        (clock.datetime.hour(), clock.datetime.minute(), clock.datetime.second()),
        (1, 2, 3)
    );
}

#[test]
fn the_builders_set_one_field_each() {
    let frame = Frame::default().borders(Edges::all());
    let style = Style::default().fg(Colour::Rgb(1, 2, 3)).bg(Colour::Indexed(4));
    let clock = at(1, 2, 3).block(frame).center(true).style(style);
    assert_eq!(clock.block, Some(frame));
    assert!(clock.center);
    assert_eq!(clock.style, style);
    assert_eq!(clock.datetime.hour(), 1);
    let clock = clock.center(false);
    assert!(!clock.center);
    assert_eq!(clock.block, Some(frame));
}

#[test]
fn the_default_clock_shows_a_time_of_day() {
    let clock = Clock::default();
    assert!(clock.datetime.hour() < 24);
    assert!(clock.datetime.minute() < 60);
    assert!(clock.datetime.second() < 60);
    assert_eq!(clock.style, Style::default());
    assert!(!clock.center);
    assert!(clock.block.is_none());
}

#[test]
fn a_background_fills_the_whole_content_area_and_nothing_else() {
    let mut buf = screen(0, 0, 60, 10);
    buf.set_string(3, 2, "x", tui::style::Style::default().fg(Color::Red));
    let clock = at(11, 11, 11).style(
        Style::default().fg(Colour::Plain(Hue::Green)).bg(Colour::Plain(Hue::Blue)),
    );
    assert!(clock.render(Rect::new(2, 1, 55, 7), &mut buf));
    for y in 0..10 {
        for x in 0..60 {
            let cell = buf.get(x, y);
            let inside = (2..57).contains(&x) && (1..8).contains(&y);
            if cell.symbol == "\u{2588}" {
                assert!(inside);
                assert_eq!(cell.style.bg, Color::Reset);
            } else if cell.symbol == " " && cell.style.bg == Color::Green {
                assert!(inside);
            } else if inside {
                assert_eq!(cell.style.bg, Color::Blue, "column {x}, row {y}");
            } else {
                assert_eq!(cell.style.bg, Color::Reset, "column {x}, row {y}");
            }
        }
    }
    assert_eq!(buf.get(3, 2).symbol, "x");
    assert_eq!(buf.get(3, 2).style.fg, Color::Red);
    assert_eq!(buf.get(3, 2).style.bg, Color::Blue);
    assert_eq!(corner(&buf), (6, 1));
}

#[test]
fn fill_background_keeps_symbols_and_foregrounds() {
    let mut buf = screen(1, 1, 5, 4);
    buf.set_string(1, 2, "hello", tui::style::Style::default().fg(Color::Yellow));
    fill_background(Rect::new(2, 2, 3, 2), &mut buf, Colour::Indexed(9));
    for y in 1..5 {
        for x in 1..6 {
            let cell = buf.get(x, y);
            let inside = (2..5).contains(&x) && (2..4).contains(&y);
            assert_eq!(cell.style.bg, if inside { Color::Indexed(9) } else { Color::Reset });
            if y == 2 {
                assert_eq!(cell.symbol, "hello"[(x - 1) as usize..x as usize].to_string());
                assert_eq!(cell.style.fg, Color::Yellow);
            }
        }
    }
}

#[test]
fn fill_background_of_an_empty_area_changes_nothing() {
    let mut buf = screen(0, 0, 5, 4);
    let before = buf.clone();
    fill_background(Rect::new(2, 2, 0, 2), &mut buf, Colour::Indexed(9));
    fill_background(Rect::new(2, 2, 3, 0), &mut buf, Colour::Indexed(9));
    fill_background(Rect::new(100, 100, 0, 0), &mut buf, Colour::Indexed(9));
    assert!(buf == before);
}

#[test]
fn a_frame_takes_the_outer_cells_and_the_clock_the_rest() {
    let mut buf = screen(0, 0, 60, 10);
    let frame = Frame::default()
        .borders(Edges::all())
        .border_style(Style::default().fg(Colour::Bright(Hue::Black)));
    let clock = at(0, 0, 0).block(frame);
    assert!(clock.render(Rect::new(2, 1, 53, 7), &mut buf));
    assert_eq!(buf.get(2, 1).symbol, "\u{250c}");
    assert_eq!(buf.get(54, 1).symbol, "\u{2510}");
    assert_eq!(buf.get(2, 7).symbol, "\u{2514}");
    assert_eq!(buf.get(54, 7).symbol, "\u{2518}");
    for x in 3..54 {
        assert_eq!(buf.get(x, 1).symbol, "\u{2500}");
        assert_eq!(buf.get(x, 7).symbol, "\u{2500}");
        assert_eq!(buf.get(x, 1).style.fg, Color::DarkGray);
    }
    for y in 2..7 {
        assert_eq!(buf.get(2, y).symbol, "\u{2502}");
        assert_eq!(buf.get(54, y).symbol, "\u{2502}");
    }
    assert_eq!(corner(&buf), (3, 2));
    assert_eq!(buf.get(53, 6).symbol, "\u{2588}");
}

#[test]
fn a_frame_can_leave_too_little_for_the_clock() {
    let mut buf = screen(0, 0, 60, 10);
    let clock = at(0, 0, 0).block(Frame::default().borders(Edges::all()));
    assert!(clock.render(Rect::new(0, 0, 52, 7), &mut buf));
    assert!(picture(&buf).iter().all(|row| !row.contains('#') && !row.contains(':')));
    assert_eq!(buf.get(0, 0).symbol, "\u{250c}");

    let mut buf = screen(0, 0, 60, 10);
    assert!(clock.render(Rect::new(0, 0, 53, 6), &mut buf));
    assert!(picture(&buf).iter().all(|row| !row.contains('#') && !row.contains(':')));
}

#[test]
fn each_border_takes_one_row_or_column_from_the_clock() {
    let cases = [
        (Edges::none(), (0, 0)),
        (Edges::none().top(), (0, 1)),
        (Edges::none().left(), (1, 0)),
        (Edges::none().bottom(), (0, 0)),
        (Edges::none().right(), (0, 0)),
        (Edges::none().top().left(), (1, 1)),
        (Edges::all(), (1, 1)),
    ];
    for (edges, (left, top)) in cases {
        let mut buf = screen(0, 0, 60, 10);
        let clock = at(0, 0, 0).block(Frame::default().borders(edges));
        assert!(clock.render(Rect::new(4, 2, 53, 7), &mut buf));
        assert_eq!(corner(&buf), (4 + left, 2 + top), "{edges:?}");
    }
    let centred = [
        (Edges::none().bottom(), (1, 0)),
        (Edges::none().bottom().top(), (1, 1)),
        (Edges::none().right().left(), (1, 1)),
        (Edges::none().left(), (2, 1)),
    ];
    for (edges, (left, top)) in centred {
        let mut buf = screen(0, 0, 60, 10);
        let clock = at(0, 0, 0).block(Frame::default().borders(edges)).center(true);
        assert!(clock.render(Rect::new(4, 2, 54, 7), &mut buf));
        assert_eq!(corner(&buf), (4 + left, 2 + top), "{edges:?}");
    }
}

#[test]
fn a_frame_around_a_sliver_is_not_drawn() {
    let mut buf = screen(0, 0, 60, 10);
    let before = buf.clone();
    let clock = at(0, 0, 0).block(Frame::default().borders(Edges::all()));
    assert!(clock.render(Rect::new(3, 3, 1, 5), &mut buf));
    assert!(clock.render(Rect::new(3, 3, 40, 1), &mut buf));
    assert!(buf == before);
}

#[test]
fn an_area_that_leaves_the_buffer_is_refused() {
    let clock = at(12, 34, 56);
    for area in [
        Rect::new(0, 0, 52, 5),
        Rect::new(0, 0, 51, 6),
        Rect::new(1, 0, 51, 5),
        Rect::new(0, 1, 51, 5),
        Rect::new(65535, 0, 1, 1),
        Rect::new(0, 65535, 1, 1),
        Rect::new(65000, 0, 600, 1),
    ] {
        let mut buf = screen(0, 0, 51, 5);
        let before = buf.clone();
        assert!(!clock.render(area, &mut buf), "{area:?}");
        assert!(buf == before);
    }
    let mut buf = screen(10, 10, 51, 5);
    assert!(!clock.render(Rect::new(9, 10, 51, 5), &mut buf));
    assert!(!clock.render(Rect::new(10, 9, 51, 5), &mut buf));
    assert!(clock.render(Rect::new(10, 10, 51, 5), &mut buf));
}

#[test]
fn an_empty_area_is_accepted_wherever_it_lies() {
    let mut buf = screen(0, 0, 51, 5);
    let before = buf.clone();
    assert!(at(1, 2, 3).render(Rect::new(300, 300, 0, 7), &mut buf));
    assert!(at(1, 2, 3).render(Rect::new(300, 300, 7, 0), &mut buf));
    assert!(buf == before);
}

#[test]
fn a_buffer_with_cells_missing_is_refused() {
    let mut buf = screen(0, 0, 51, 5);
    buf.content.pop();
    assert!(!buffer_is_sound(&buf));
    let before = buf.clone();
    assert!(!at(12, 34, 56).render(Rect::new(0, 0, 51, 5), &mut buf));
    assert!(buf == before);

    let mut buf = screen(0, 0, 51, 5);
    buf.area.width = 52;
    assert!(!buffer_is_sound(&buf));
    assert!(!at(12, 34, 56).render(Rect::new(0, 0, 51, 5), &mut buf));

    let mut buf = screen(0, 0, 51, 5);
    buf.area.x = 65500;
    assert!(!buffer_is_sound(&buf));

    assert!(buffer_is_sound(&screen(0, 0, 51, 5)));
    assert!(buffer_is_sound(&screen(65000, 65000, 255, 257)));
    assert!(buffer_is_sound(&screen(0, 0, 0, 0)));
}

#[test]
fn draw_and_render_agree_where_both_apply() {
    let frame = Frame::default().borders(Edges::none().bottom());
    for clock in [at(14, 5, 9), at(14, 5, 9).center(true).block(frame)] {
        let mut drawn = screen(0, 0, 80, 24);
        clock.draw(Rect::new(0, 0, 80, 10), &mut drawn);
        let mut rendered = screen(0, 0, 80, 24);
        assert!(clock.render(Rect::new(0, 0, 80, 10), &mut rendered));
        assert!(drawn == rendered);
    }
}

#[test]
fn draw_content_ignores_the_frame() {
    let clock = at(20, 5, 9).block(Frame::default().borders(Edges::all()));
    let mut buf = screen(0, 0, 51, 5);
    clock.draw_content(Rect::new(0, 0, 51, 5), &mut buf);
    assert_eq!(corner(&buf), (0, 0));
    assert_eq!(buf.get(50, 4).symbol, "\u{2588}");
}

#[test]
fn a_frame_touches_no_cell_outside_its_area() {
    let marked = tui::style::Style::default().fg(Color::Red).bg(Color::Blue);
    for (width, height) in [(53, 7), (30, 4), (2, 2), (1, 8), (9, 1)] {
        let mut buf = screen(0, 0, 60, 10);
        for y in 0..10 {
            buf.set_string(0, y, "m".repeat(60), marked);
        }
        let before = buf.clone();
        let clock = at(0, 0, 0).block(Frame::default().borders(Edges::all()));
        assert!(clock.render(Rect::new(3, 2, width, height), &mut buf));
        for y in 0..10 {
            for x in 0..60 {
                let inside = (3..3 + width).contains(&x) && (2..2 + height).contains(&y);
                if !inside {
                    assert_eq!(buf.get(x, y), before.get(x, y), "column {x}, row {y}");
                }
            }
        }
    }
}

#[test]
fn a_frame_leaves_symbols_and_foregrounds_inside_its_borders() {
    let marked = tui::style::Style::default()
        .fg(Color::Red)
        .bg(Color::Blue)
        .modifier(tui::style::Modifier::BOLD);
    let cases = [
        (Edges::all(), 4..32, 3..5),
        (Edges::none(), 3..33, 2..6),
        (Edges::none().bottom(), 3..33, 2..5),
        (Edges::none().top().left(), 4..33, 3..6),
        (Edges::none().right(), 3..32, 2..6),
    ];
    for (edges, columns, rows) in cases {
        let mut buf = screen(0, 0, 40, 8);
        for y in 0..8 {
            buf.set_string(0, y, "m".repeat(40), marked);
        }
        let clock = at(0, 0, 0).block(Frame::default().borders(edges));
        assert!(clock.render(Rect::new(3, 2, 30, 4), &mut buf));
        for y in 2..6 {
            for x in 3..33 {
                let cell = buf.get(x, y);
                if columns.contains(&x) && rows.contains(&y) {
                    assert_eq!(cell.symbol, "m", "{edges:?}: column {x}, row {y}");
                    assert_eq!(cell.style.fg, Color::Red);
                    assert_eq!(cell.style.modifier, tui::style::Modifier::BOLD);
                    assert_eq!(cell.style.bg, Color::Reset);
                } else {
                    assert_ne!(cell.symbol, "m", "{edges:?}: column {x}, row {y}");
                }
            }
        }
    }
}

#[test]
fn a_framed_clock_is_drawn_over_what_the_frame_has_left() {
    let marked = tui::style::Style::default().fg(Color::Red).bg(Color::Blue);
    let mut buf = screen(0, 0, 60, 10);
    for y in 0..10 {
        buf.set_string(0, y, "m".repeat(60), marked);
    }
    let clock = at(11, 11, 11).block(Frame::default().borders(Edges::all()));
    assert!(clock.render(Rect::new(2, 1, 53, 7), &mut buf));
    // The clock stands at column 3, row 2. The digit 1 leaves its first four
    // columns to what was there.
    for y in 2..7 {
        for x in 3..7 {
            let cell = buf.get(x, y);
            assert_eq!(cell.symbol, "m");
            assert_eq!(cell.style, tui::style::Style::default().fg(Color::Red));
        }
        for x in 7..9 {
            let cell = buf.get(x, y);
            assert_eq!(cell.symbol, "\u{2588}");
            assert_eq!(cell.style, tui::style::Style::default().fg(Color::Green));
        }
    }
}

#[test]
fn a_drawn_buffer_is_still_sound() {
    let frame = Frame::default().borders(Edges::all());
    for clock in [at(1, 2, 3), at(1, 2, 3).block(frame), at(1, 2, 3).block(frame).center(true)] {
        for area in [Rect::new(0, 0, 60, 10), Rect::new(3, 2, 53, 7), Rect::new(3, 2, 1, 1)] {
            let mut buf = screen(0, 0, 60, 10);
            assert!(clock.render(area, &mut buf));
            assert!(buffer_is_sound(&buf));
            assert_eq!(*buf.area(), tui::layout::Rect { x: 0, y: 0, width: 60, height: 10 });
            assert_eq!(buf.content.len(), 600);
        }
    }
}

#[test]
fn a_buffer_holds_the_areas_inside_it() {
    let buf = screen(10, 10, 20, 5);
    assert!(buffer_holds(&buf, &Rect::new(10, 10, 20, 5)));
    assert!(buffer_holds(&buf, &Rect::new(29, 14, 1, 1)));
    assert!(buffer_holds(&buf, &Rect::new(0, 0, 0, 0)));
    assert!(buffer_holds(&buf, &Rect::new(500, 500, 0, 3)));
    assert!(!buffer_holds(&buf, &Rect::new(9, 10, 2, 1)));
    assert!(!buffer_holds(&buf, &Rect::new(10, 10, 21, 5)));
    assert!(!buffer_holds(&buf, &Rect::new(10, 10, 20, 6)));
    assert!(!buffer_holds(&buf, &Rect::new(65535, 10, 1, 0)));
    let mut short = screen(10, 10, 20, 5);
    short.content.pop();
    assert!(!buffer_holds(&short, &Rect::new(10, 10, 1, 1)));
    assert!(!buffer_holds(&short, &Rect::new(0, 0, 0, 0)));
}

#[test]
fn render_colon_draws_what_draw_colon_draws() {
    let style = Style::default().bg(Colour::Plain(Hue::Green));
    let mut drawn = screen(2, 2, 4, 5);
    draw_colon(3, 2, &mut drawn, style);
    let mut rendered = screen(2, 2, 4, 5);
    assert!(render_colon(3, 2, &mut rendered, style));
    assert!(drawn == rendered);
    assert_eq!(rendered.get(3, 3).style.bg, Color::Green);
    assert_eq!(rendered.get(4, 5).style.bg, Color::Green);
}

#[test]
fn render_colon_refuses_what_cannot_be_drawn() {
    let style = Style::default().bg(Colour::Plain(Hue::Green));
    for (x, y) in [(1, 2), (5, 2), (3, 1), (3, 3), (65535, 2), (3, 65535)] {
        let mut buf = screen(2, 2, 4, 5);
        let before = buf.clone();
        assert!(!render_colon(x, y, &mut buf, style), "{x}, {y}");
        assert!(buf == before);
    }
    let mut buf = screen(2, 2, 4, 5);
    buf.area.height = 6;
    let before = buf.clone();
    assert!(!render_colon(3, 2, &mut buf, style));
    assert!(buf == before);
}

#[test]
fn render_background_fills_or_refuses() {
    let mut filled = screen(1, 1, 5, 4);
    fill_background(Rect::new(2, 2, 3, 2), &mut filled, Colour::Indexed(9));
    let mut rendered = screen(1, 1, 5, 4);
    assert!(render_background(Rect::new(2, 2, 3, 2), &mut rendered, Colour::Indexed(9)));
    assert!(filled == rendered);
    assert_eq!(rendered.get(4, 3).style.bg, Color::Indexed(9));
    assert_eq!(rendered.get(5, 3).style.bg, Color::Reset);

    for area in [Rect::new(0, 1, 2, 1), Rect::new(1, 1, 6, 1), Rect::new(1, 4, 1, 2)] {
        let mut buf = screen(1, 1, 5, 4);
        let before = buf.clone();
        assert!(!render_background(area, &mut buf, Colour::Indexed(9)), "{area:?}");
        assert!(buf == before);
    }
}

#[test]
fn render_content_draws_the_clock_without_its_frame() {
    let clock = at(20, 5, 9).block(Frame::default().borders(Edges::all()));
    let mut drawn = screen(0, 0, 60, 8);
    clock.draw_content(Rect::new(4, 1, 53, 6), &mut drawn);
    let mut rendered = screen(0, 0, 60, 8);
    assert!(clock.render_content(Rect::new(4, 1, 53, 6), &mut rendered));
    assert!(drawn == rendered);
    assert_eq!(corner(&rendered), (4, 1));

    let plain = at(20, 5, 9);
    let mut whole = screen(0, 0, 60, 8);
    assert!(plain.render(Rect::new(4, 1, 53, 6), &mut whole));
    assert!(whole == rendered);
}

#[test]
fn render_content_refuses_what_cannot_be_drawn() {
    let clock = at(20, 5, 9);
    for area in [Rect::new(0, 0, 61, 8), Rect::new(10, 0, 51, 5), Rect::new(0, 4, 51, 5)] {
        let mut buf = screen(0, 0, 60, 8);
        let before = buf.clone();
        assert!(!clock.render_content(area, &mut buf), "{area:?}");
        assert!(buf == before);
    }
    let mut buf = screen(0, 0, 60, 8);
    let before = buf.clone();
    assert!(clock.render_content(Rect::new(0, 0, 50, 8), &mut buf));
    assert!(buf == before);
}
