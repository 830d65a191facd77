use platformer_core::anim::{ClipMode, Playback};
use platformer_core::world::standard_clips;

#[test]
fn walk_clip_frame_progression() {
    let (table, player_clips, _, _) = standard_clips();
    let mut pb = Playback::new(player_clips.walk);
    assert_eq!(pb.frame_index(&table), 1);
    pb.advance(&table, 250);
    assert_eq!(pb.frame_index(&table), 2);
    pb.advance(&table, 250);
    assert_eq!(pb.frame_index(&table), 3);
    pb.advance(&table, 250);
    assert_eq!(pb.frame_index(&table), 2);
    pb.advance(&table, 250);
    // Wrapped around one full period: back to the first frame.
    assert_eq!(pb.elapsed_ms, 0);
    assert_eq!(pb.frame_index(&table), 1);
}

#[test]
fn walk_clip_mid_frame_offsets() {
    let (table, player_clips, _, _) = standard_clips();
    let mut pb = Playback::new(player_clips.walk);
    pb.advance(&table, 249);
    assert_eq!(pb.frame_index(&table), 1);
    pb.advance(&table, 1);
    assert_eq!(pb.frame_index(&table), 2);
    pb.advance(&table, 1300);
    // 1550 ms into a 1000 ms loop: 550 ms in, inside the third frame.
    assert_eq!(pb.elapsed_ms, 550);
    assert_eq!(pb.frame_index(&table), 3);
}

#[test]
fn idle_clip_always_first_frame() {
    let (table, player_clips, _, _) = standard_clips();
    let mut pb = Playback::new(player_clips.idle);
    assert_eq!(pb.frame_index(&table), 0);
    pb.advance(&table, 987_654);
    assert_eq!(pb.elapsed_ms, 0);
    assert_eq!(pb.frame_index(&table), 0);
}

#[test]
fn hold_clip_freezes_on_last_frame() {
    let (table, player_clips, _, _) = standard_clips();
    assert!(matches!(table.clips[player_clips.captured].mode, ClipMode::OnceHold));
    let mut pb = Playback::new(player_clips.captured);
    assert_eq!(pb.frame_index(&table), 8);
    pb.advance(&table, 10_000);
    // Clamped at the clip's total duration, holding the last frame.
    assert_eq!(pb.elapsed_ms, 250);
    assert_eq!(pb.frame_index(&table), 8);
    pb.advance(&table, 10_000);
    assert_eq!(pb.elapsed_ms, 250);
    assert_eq!(pb.frame_index(&table), 8);
}

#[test]
fn assign_resets_elapsed_even_for_same_clip() {
    let (table, player_clips, _, _) = standard_clips();
    let mut pb = Playback::new(player_clips.walk);
    pb.advance(&table, 600);
    assert_eq!(pb.elapsed_ms, 600);
    let clip_before = pb.clip;
    pb.assign(clip_before);
    // Reassignment zeroes the cursor unconditionally.
    assert_eq!(pb.clip, clip_before);
    assert_eq!(pb.elapsed_ms, 0);
    pb.advance(&table, 100);
    pb.assign(player_clips.swim);
    assert_eq!(pb.clip, player_clips.swim);
    assert_eq!(pb.elapsed_ms, 0);
}

#[test]
fn portal_clips_content() {
    let (table, _, portal_clips, enemy_clip) = standard_clips();
    let closed = &table.clips[portal_clips.closed];
    assert_eq!(closed.frames.len(), 1);
    assert_eq!(closed.frames[0].sprite_index, 0);
    let opened = &table.clips[portal_clips.opened];
    assert_eq!(opened.frames.len(), 2);
    assert_eq!(opened.frames[0].sprite_index, 2);
    assert_eq!(opened.frames[1].sprite_index, 1);
    let swim = &table.clips[enemy_clip];
    assert_eq!(swim.frames.len(), 2);
    assert_eq!(swim.frames[0].sprite_index, 0);
    assert_eq!(swim.frames[1].sprite_index, 1);
}
