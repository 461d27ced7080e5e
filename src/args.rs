use vstd::prelude::*;

use crate::text::same_text;

verus! {

/// What the caller asks to download, and how.
pub struct DownloadOptions {
    pub url: String,
    /// `"mp3"` asks for audio only; anything else for video.
    pub format: String,
    /// `"best"`, `"normal"` or `"custom"`; anything else counts as unspecified.
    pub quality: Option<String>,
    /// Where the file goes; the platform's downloads directory when absent.
    pub output_dir: Option<String>,
}

/// The quality word equals `word`.
pub open spec fn quality_is(quality: Option<Seq<char>>, word: Seq<char>) -> bool {
    quality is Some && quality->0 == word
}

/// The audio quality code for a quality word: `0` best, `3` custom, `5` otherwise.
pub open spec fn audio_quality_code(quality: Option<Seq<char>>) -> Seq<char> {
    if quality_is(quality, "best"@) {
        "0"@
    } else if quality_is(quality, "custom"@) {
        "3"@
    } else {
        "5"@
    }
}

/// The stream selection expression for a video download.
pub open spec fn video_selector(quality: Option<Seq<char>>) -> Seq<char> {
    if quality_is(quality, "best"@) {
        "bv*[ext=mp4]+ba[ext=m4a]/b[ext=mp4]"@
    } else if quality_is(quality, "normal"@) {
        "bv*[height<=720][ext=mp4]+ba[ext=m4a]/b[height<=720][ext=mp4]"@
    } else if quality_is(quality, "custom"@) {
        "bv*[height<=480][ext=mp4]+ba[ext=m4a]/b[height<=480][ext=mp4]"@
    } else {
        "bv*+ba/b"@
    }
}

/// The tokens that select what is downloaded.
pub open spec fn format_tokens(format: Seq<char>, quality: Option<Seq<char>>) -> Seq<Seq<char>> {
    if format == "mp3"@ {
        seq![
            "--extract-audio"@,
            "--audio-format"@,
            "mp3"@,
            "--audio-quality"@,
            audio_quality_code(quality),
        ]
    } else {
        seq!["-f"@, video_selector(quality)]
    }
}

/// The whole argument vector of a download.
pub open spec fn download_args(
    url: Seq<char>,
    format: Seq<char>,
    quality: Option<Seq<char>>,
    output_template: Seq<char>,
) -> Seq<Seq<char>> {
    seq![url] + format_tokens(format, quality) + seq![
        "--output"@,
        output_template,
        "--newline"@,
        "--progress"@,
        "--force-overwrites"@,
    ]
}

/// The characters of each text.
pub open spec fn texts(v: Seq<String>) -> Seq<Seq<char>> {
    v.map_values(|s: String| s@)
}

pub open spec fn quality_view(q: Option<String>) -> Option<Seq<char>> {
    match q {
        Some(s) => Some(s@),
        None => None,
    }
}

fn push_text(v: &mut Vec<String>, s: &str)
    ensures
        texts(final(v)@) == texts(old(v)@).push(s@),
{
    v.push(s.to_owned());
    assert(texts(final(v)@) =~= texts(old(v)@).push(s@));
}

fn quality_word(quality: &Option<String>, word: &str) -> (r: bool)
    ensures
        r == quality_is(quality_view(*quality), word@),
{
    match quality {
        Some(q) => same_text(q.as_str(), word),
        None => false,
    }
}

/// File name pattern of a download, with title and upload date placeholders.
pub fn output_name_pattern() -> (r: String)
    ensures
        r@ == "%(title)s-%(upload_date)s.%(ext)s"@,
{
    "%(title)s-%(upload_date)s.%(ext)s".to_owned()
}

/// The argument vector of a download: the URL, the format selection, the
/// output template and the flags for line-wise progress and overwriting.
pub fn build_args(options: &DownloadOptions, output_template: &str) -> (r: Vec<String>)
    ensures
        texts(r@) == download_args(
            options.url@,
            options.format@,
            quality_view(options.quality),
            output_template@,
        ),
{
    let ghost q = quality_view(options.quality);
    let mut v: Vec<String> = Vec::new();
    push_text(&mut v, options.url.as_str());
    if same_text(options.format.as_str(), "mp3") {
        push_text(&mut v, "--extract-audio");
        push_text(&mut v, "--audio-format");
        push_text(&mut v, "mp3");
        push_text(&mut v, "--audio-quality");
        if quality_word(&options.quality, "best") {
            push_text(&mut v, "0");
        } else if quality_word(&options.quality, "custom") {
            push_text(&mut v, "3");
        } else {
            push_text(&mut v, "5");
        }
    } else {
        push_text(&mut v, "-f");
        if quality_word(&options.quality, "best") {
            push_text(&mut v, "bv*[ext=mp4]+ba[ext=m4a]/b[ext=mp4]");
        } else if quality_word(&options.quality, "normal") {
            push_text(&mut v, "bv*[height<=720][ext=mp4]+ba[ext=m4a]/b[height<=720][ext=mp4]");
        } else if quality_word(&options.quality, "custom") {
            push_text(&mut v, "bv*[height<=480][ext=mp4]+ba[ext=m4a]/b[height<=480][ext=mp4]");
        } else {
            push_text(&mut v, "bv*+ba/b");
        }
    }
    push_text(&mut v, "--output");
    push_text(&mut v, output_template);
    push_text(&mut v, "--newline");
    push_text(&mut v, "--progress");
    push_text(&mut v, "--force-overwrites");
    assert(texts(v@) =~= download_args(options.url@, options.format@, q, output_template@));
    v
}

/// The argument vector that asks the tool for the formats a URL offers.
pub fn list_formats_args(url: &str) -> (r: Vec<String>)
    ensures
        texts(r@) == seq!["--list-formats"@, url@],
{
    let mut v: Vec<String> = Vec::new();
    push_text(&mut v, "--list-formats");
    push_text(&mut v, url);
    assert(texts(v@) =~= seq!["--list-formats"@, url@]);
    v
}

/// No quote character in the text.
pub open spec fn unquoted(s: Seq<char>) -> bool {
    forall|k: int| 0 <= k < s.len() ==> s[k] != '"'
}

/// No argument of a download holds a quote character, unless the URL or the
/// output template brought one.
pub proof fn lemma_download_args_unquoted(
    url: Seq<char>,
    format: Seq<char>,
    quality: Option<Seq<char>>,
    output_template: Seq<char>,
)
    requires
        unquoted(url),
        unquoted(output_template),
    ensures
        forall|i: int|
            0 <= i < download_args(url, format, quality, output_template).len() ==> unquoted(
                #[trigger] download_args(url, format, quality, output_template)[i],
            ),
{
    reveal_strlit("--extract-audio");
    reveal_strlit("--audio-format");
    reveal_strlit("mp3");
    reveal_strlit("--audio-quality");
    reveal_strlit("0");
    reveal_strlit("3");
    reveal_strlit("5");
    reveal_strlit("-f");
    reveal_strlit("bv*[ext=mp4]+ba[ext=m4a]/b[ext=mp4]");
    reveal_strlit("bv*[height<=720][ext=mp4]+ba[ext=m4a]/b[height<=720][ext=mp4]");
    reveal_strlit("bv*[height<=480][ext=mp4]+ba[ext=m4a]/b[height<=480][ext=mp4]");
    reveal_strlit("bv*+ba/b");
    reveal_strlit("--output");
    reveal_strlit("--newline");
    reveal_strlit("--progress");
    reveal_strlit("--force-overwrites");
    assert(unquoted("--extract-audio"@));
    assert(unquoted("--audio-format"@));
    assert(unquoted("mp3"@));
    assert(unquoted("--audio-quality"@));
    assert(unquoted("0"@));
    assert(unquoted("3"@));
    assert(unquoted("5"@));
    assert(unquoted("-f"@));
    assert(unquoted("bv*[ext=mp4]+ba[ext=m4a]/b[ext=mp4]"@));
    assert(unquoted("bv*[height<=720][ext=mp4]+ba[ext=m4a]/b[height<=720][ext=mp4]"@));
    assert(unquoted("bv*[height<=480][ext=mp4]+ba[ext=m4a]/b[height<=480][ext=mp4]"@));
    assert(unquoted("bv*+ba/b"@));
    assert(unquoted("--output"@));
    assert(unquoted("--newline"@));
    assert(unquoted("--progress"@));
    assert(unquoted("--force-overwrites"@));
    let a = download_args(url, format, quality, output_template);
    let f = format_tokens(format, quality);
    assert(unquoted(audio_quality_code(quality)));
    assert(unquoted(video_selector(quality)));
    assert forall|i: int| 0 <= i < f.len() implies unquoted(#[trigger] f[i]) by {
        if format == "mp3"@ {
            assert(f[i] == seq![
                "--extract-audio"@,
                "--audio-format"@,
                "mp3"@,
                "--audio-quality"@,
                audio_quality_code(quality),
            ][i]);
        }
    }
    assert forall|i: int| 0 <= i < a.len() implies unquoted(#[trigger] a[i]) by {
        if 1 <= i < 1 + f.len() {
            assert(a[i] == f[i - 1]);
        }
    }
}

} // verus!
