use laser_stream::{Point, Streamer};

fn pull<P: Copy>(pts: &mut laser_stream::Points<P>, n: usize) -> Vec<Option<Point<P>>> {
    let mut got = Vec::new();
    for _ in 0..n {
        got.push(pts.next());
    }
    got
}

#[test]
fn fresh_three_point_cycle() {
    // frame = [A, B, C]: five pulls give the frame, a blank of its last
    // point, and the restart of the cycle.
    let s = Streamer::from_frame(vec![10u8, 20, 30]);
    let mut pts = s.next_points();
    assert_eq!(
        pull(&mut pts, 5),
        vec![
            Some(Point::Regular(10)),
            Some(Point::Regular(20)),
            Some(Point::Regular(30)),
            Some(Point::Blank(30)),
            Some(Point::Regular(10)),
        ]
    );
}

#[test]
fn two_full_cycles() {
    // Pulling on past the first wrap repeats the frame with one blank at
    // every wrap boundary, and no blank before the first item.
    let s = Streamer::from_frame(vec![4u32, 5]);
    let mut pts = s.next_points();
    assert_eq!(
        pull(&mut pts, 8),
        vec![
            Some(Point::Regular(4)),
            Some(Point::Regular(5)),
            Some(Point::Blank(5)),
            Some(Point::Regular(4)),
            Some(Point::Regular(5)),
            Some(Point::Blank(5)),
            Some(Point::Regular(4)),
            Some(Point::Regular(5)),
        ]
    );
}

#[test]
fn empty_frame_yields_nothing() {
    let s = Streamer::<u8>::new();
    let mut pts = s.next_points();
    assert_eq!(pull(&mut pts, 4), vec![None, None, None, None]);
}

#[test]
fn empty_frame_yields_nothing_across_requests() {
    let s = Streamer::<u8>::from_frame(vec![]);
    let mut pts = s.next_points();
    assert_eq!(pts.next(), None);
    let mut pts = pts.into_streamer().next_points();
    assert_eq!(pts.next(), None);
    assert_eq!(pts.next(), None);
}

#[test]
fn submit_mid_stream_blanks_then_new_frame() {
    // frame = [A, B]: pull 2, submit [X, Y, Z], pull 4.
    let s = Streamer::from_frame(vec![1u8, 2]);
    let mut pts = s.next_points();
    assert_eq!(
        pull(&mut pts, 2),
        vec![Some(Point::Regular(1)), Some(Point::Regular(2))]
    );
    let mut s = pts.into_streamer();
    s.submit_frame(vec![7u8, 8, 9]);
    let mut pts = s.next_points();
    assert_eq!(
        pull(&mut pts, 4),
        vec![
            Some(Point::Blank(2)),
            Some(Point::Regular(7)),
            Some(Point::Regular(8)),
            Some(Point::Regular(9)),
        ]
    );
}

#[test]
fn submit_empty_mid_stream_yields_only_the_blank() {
    let s = Streamer::from_frame(vec![9u8]);
    let mut pts = s.next_points();
    assert_eq!(pts.next(), Some(Point::Regular(9)));
    let mut s = pts.into_streamer();
    s.submit_frame(vec![]);
    let mut pts = s.next_points();
    assert_eq!(pts.next(), Some(Point::Blank(9)));
    assert_eq!(pts.next(), None);
    assert_eq!(pts.next(), None);
}

#[test]
fn submit_before_any_emission_yields_no_blank() {
    let mut s = Streamer::new();
    s.submit_frame(vec![7u16, 8]);
    let mut pts = s.next_points();
    assert_eq!(pts.next(), Some(Point::Regular(7)));
    assert_eq!(pts.next(), Some(Point::Regular(8)));
}

#[test]
fn submit_twice_keeps_last_emitted_point() {
    // Two submissions in a row still owe exactly one blank, of the point
    // last emitted before either of them.
    let s = Streamer::from_frame(vec![1u8]);
    let mut pts = s.next_points();
    assert_eq!(pts.next(), Some(Point::Regular(1)));
    let mut s = pts.into_streamer();
    s.submit_frame(vec![2u8]);
    s.submit_frame(vec![3u8]);
    let mut pts = s.next_points();
    assert_eq!(pts.next(), Some(Point::Blank(1)));
    assert_eq!(pts.next(), Some(Point::Regular(3)));
}

#[test]
fn partial_consumption_is_durable() {
    // Pull 2 of 4, hand the state back, ask again: emission resumes at the
    // third point, not at the frame's start.
    let s = Streamer::from_frame(vec![1u8, 2, 3, 4]);
    let mut pts = s.next_points();
    assert_eq!(
        pull(&mut pts, 2),
        vec![Some(Point::Regular(1)), Some(Point::Regular(2))]
    );
    let s = pts.into_streamer();
    let mut pts = s.next_points();
    assert_eq!(pts.next(), Some(Point::Regular(3)));
    assert_eq!(pts.next(), Some(Point::Regular(4)));
    assert_eq!(pts.next(), Some(Point::Blank(4)));
}

#[test]
fn single_point_frame_alternates_with_blanks() {
    let s = Streamer::from_frame(vec![5i32]);
    let mut pts = s.next_points();
    assert_eq!(
        pull(&mut pts, 5),
        vec![
            Some(Point::Regular(5)),
            Some(Point::Blank(5)),
            Some(Point::Regular(5)),
            Some(Point::Blank(5)),
            Some(Point::Regular(5)),
        ]
    );
}

#[test]
fn default_is_a_fresh_empty_streamer() {
    let s = Streamer::<u8>::default();
    let mut pts = s.next_points();
    assert_eq!(pts.next(), None);
}

#[test]
fn tuple_payloads_pass_through_opaquely() {
    // The point payload is caller-supplied and opaque, e.g. coordinates
    // with a colour channel.
    let a = (0i16, 0i16, 255u8);
    let b = (100i16, -50i16, 0u8);
    let s = Streamer::from_frame(vec![a, b]);
    let mut pts = s.next_points();
    assert_eq!(
        pull(&mut pts, 3),
        vec![
            Some(Point::Regular(a)),
            Some(Point::Regular(b)),
            Some(Point::Blank(b)),
        ]
    );
}

#[test]
fn non_copy_payloads_can_be_loaded_and_resubmitted() {
    let mut s = Streamer::from_frame(vec![String::from("a"), String::from("b")]);
    s.submit_frame(vec![String::from("c")]);
    let pts = s.next_points();
    let _s = pts.into_streamer();
}
