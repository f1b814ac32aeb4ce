use kinestra::commands::{
    capture_command, compositor_command, gif_command, key_command, kill_command, launch_streams,
    mktemp_command, place_window_command, poster_command, probe_command, progress_file,
    snapshot_command, type_text_command, wallpaper_command, window_search_command, xvfb_command,
    Arg, CommandLine, Slot, Stream,
};
use kinestra::error::Error;
use kinestra::Size;

fn words(c: &CommandLine) -> Vec<String> {
    c.args
        .iter()
        .map(|a| match a {
            Arg::Text(t) => t.clone(),
            Arg::Path(Slot::Input) => "<input>".into(),
            Arg::Path(Slot::Output) => "<output>".into(),
            Arg::Path(Slot::Progress) => "<progress>".into(),
            Arg::Path(Slot::Wallpaper) => "<wallpaper>".into(),
        })
        .collect()
}

fn size() -> Size {
    Size::new(960, 540).unwrap()
}

#[test]
fn capture_is_h264_yuv420p_at_30_fps() {
    let c = capture_command(size(), ":7");
    assert_eq!(c.program, "ffmpeg");
    assert_eq!(
        words(&c).join(" "),
        "-hide_banner -loglevel error -nostdin -f x11grab -draw_mouse 0 -framerate 30 \
         -video_size 960x540 -i :7 -an -c:v libx264 -crf 18 -preset veryfast -pix_fmt yuv420p \
         -movflags +faststart -stats_period 0.1 -progress <progress> -y <output>"
    );
    assert!(matches!(c.stdout, Stream::Null));
    assert!(matches!(&c.stderr, Stream::Work(f) if f == "ffmpeg.log"));
    assert!(c.environment);
    assert_eq!(progress_file(), "progress");
}

#[test]
fn xvfb_command_line() {
    let c = xvfb_command(Size::new(320, 180).unwrap());
    assert_eq!(c.program, "Xvfb");
    assert_eq!(
        words(&c).join(" "),
        "-displayfd 1 -screen 0 320x180x24 -nolisten tcp +extension Composite"
    );
    assert!(matches!(&c.stdout, Stream::Work(f) if f == "display"));
    assert!(matches!(&c.stderr, Stream::Work(f) if f == "xvfb.log"));
    assert!(!c.environment);
}

#[test]
fn wallpaper_and_compositor() {
    let w = wallpaper_command();
    assert_eq!((w.program.as_str(), words(&w).join(" ")), ("xwallpaper", "--zoom <wallpaper>".to_string()));
    let p = compositor_command();
    assert_eq!(p.program, "picom");
    assert_eq!(words(&p).join(" "), "--backend xrender --vsync --config /dev/null");
    assert!(matches!(&p.stdout, Stream::Work(f) if f == "picom.log"));
    assert!(matches!(p.stderr, Stream::Inherit));
}

#[test]
fn window_commands() {
    let s = window_search_command("demo");
    assert_eq!(s.program, "xdotool");
    assert_eq!(words(&s), ["search", "--class", "demo"]);
    assert!(matches!(s.stderr, Stream::Null));
    let p = place_window_command("4194305", size());
    assert_eq!(
        words(&p).join(" "),
        "windowmove 4194305 0 0 windowsize 4194305 960 540 windowfocus --sync 4194305"
    );
    let (out, err) = launch_streams();
    assert!(matches!(&out, Stream::Work(f) if f == "app.log"));
    assert!(matches!(err, Stream::SameAsStdout));
}

#[test]
fn export_commands() {
    let probe = probe_command();
    assert_eq!(probe.program, "ffprobe");
    assert_eq!(words(&probe).join(" "), "-v error -show_entries format=duration -of csv=p=0 <output>");
    let snap = snapshot_command(size(), ":3");
    assert_eq!(
        words(&snap).join(" "),
        "-hide_banner -loglevel error -nostdin -f x11grab -draw_mouse 0 -video_size 960x540 -i :3 -frames:v 1 -y <output>"
    );
    let poster = poster_command("2");
    assert_eq!(
        words(&poster).join(" "),
        "-hide_banner -loglevel error -nostdin -ss 2 -i <input> -frames:v 1 -y <output>"
    );
}

#[test]
fn gif_parameters() {
    let g = gif_command(640, 10).unwrap();
    assert_eq!(
        words(&g).join(" "),
        "-hide_banner -loglevel error -nostdin -i <input> -filter_complex \
         fps=10,scale=640:-1:flags=lanczos,split[a][b];[a]palettegen[p];[b][p]paletteuse=dither=bayer \
         -loop 0 -y <output>"
    );
    assert!(gif_command(1, 1).is_ok());
    assert!(gif_command(1, 100).is_ok());
    for (w, f) in [(0, 10), (640, 0), (640, 101)] {
        match gif_command(w, f) {
            Err(Error::Invalid(m)) => assert_eq!(m, "GIF width must be positive; FPS must be 1..=100"),
            other => panic!("unexpected {:?}", other),
        }
    }
}

#[test]
fn input_commands() {
    let k = key_command("Return");
    assert_eq!((k.program.as_str(), words(&k).join(" ")), ("xdotool", "key --clearmodifiers Return".to_string()));
    let t = type_text_command("hello", 40);
    assert_eq!(words(&t), ["type", "--delay", "40", "--", "hello"]);
}

#[test]
fn process_commands() {
    let k = kill_command("-TERM", 4242);
    assert_eq!(k.program, "kill");
    assert_eq!(words(&k), ["-TERM", "--", "-4242"]);
    assert!(matches!(k.stdout, Stream::Null) && matches!(k.stderr, Stream::Null));
    let m = mktemp_command();
    assert_eq!((m.program.as_str(), words(&m).join(" ")), ("mktemp", "-d -t kinestra.XXXXXX".to_string()));
}
