//! The command lines handed to PowerShell, ffmpeg and whisper-cli, the file
//! names derived from a video, and the error texts built from what those
//! programs report.
use vstd::prelude::*;
use vstd::string::StringExecFns;
use vstd::string::StringSliceAdditionalSpecFns;
use vstd::utf8::*;

use crate::text::{
    all_white_space, decimal, decimal_string, escape_single_quotes, is_blank, last_line,
    last_line_of, quote_escaped,
};

verus! {

/// The views of a list of strings.
pub open spec fn views(v: Seq<String>) -> Seq<Seq<char>> {
    v.map_values(|s: String| s@)
}

/// The strings of `list`, with `sep` between each two.
pub open spec fn joined(list: Seq<Seq<char>>, sep: Seq<char>) -> Seq<char>
    decreases list.len(),
{
    if list.len() == 0 {
        Seq::empty()
    } else if list.len() == 1 {
        list[0]
    } else {
        joined(list.drop_last(), sep) + sep + list.last()
    }
}

/// The arguments that run a PowerShell script.
pub open spec fn ps_args_spec(script: Seq<char>) -> Seq<Seq<char>> {
    seq!["-ExecutionPolicy"@, "Bypass"@, "-NoProfile"@, "-Command"@, script]
}

/// The PowerShell script that downloads `url` to `dest`, with curl.exe when it
/// is available and with .NET's WebClient otherwise.
pub open spec fn download_script_spec(url: Seq<char>, dest: Seq<char>) -> Seq<char> {
    "if (Get-Command curl.exe -ErrorAction SilentlyContinue) { curl.exe -sL -f -o '"@ + dest
        + "' '"@ + url
        + "' } else { [Net.ServicePointManager]::SecurityProtocol = 'Tls12'; (New-Object System.Net.WebClient).DownloadFile('"@
        + url + "', '"@ + dest + "') }"@
}

/// The PowerShell script that extracts ffmpeg.exe from the archive `zip` to
/// `dest` and removes the archive; both paths are quoted.
pub open spec fn ffmpeg_extract_script_spec(zip: Seq<char>, dest: Seq<char>) -> Seq<char> {
    "Add-Type -Assembly System.IO.Compression.FileSystem; $z = [System.IO.Compression.ZipFile]::OpenRead('"@
        + quote_escaped(zip)
        + "'); $e = $z.Entries | Where-Object { $_.Name -eq 'ffmpeg.exe' } | Select-Object -First 1; if ($e) { [System.IO.Compression.ZipFileExtensions]::ExtractToFile($e, '"@
        + quote_escaped(dest) + "', $true) }; $z.Dispose(); Remove-Item '"@ + quote_escaped(zip)
        + "' -Force -ErrorAction SilentlyContinue"@
}

/// The PowerShell script that extracts every file of the archive `zip` into
/// `bin_dir`, copies a whisper executable to `dest` when the archive has none
/// by that name, and removes the archive; all paths are quoted.
pub open spec fn whisper_extract_script_spec(bin_dir: Seq<char>, zip: Seq<char>, dest: Seq<char>) -> Seq<
    char,
> {
    "Add-Type -Assembly System.IO.Compression.FileSystem; try { $z = [System.IO.Compression.ZipFile]::OpenRead('"@
        + quote_escaped(zip)
        + "'); foreach ($e in $z.Entries) { if ($e.Name -ne '') { $d = Join-Path '"@
        + quote_escaped(bin_dir)
        + "' $e.Name; try { [System.IO.Compression.ZipFileExtensions]::ExtractToFile($e, $d, $true) } catch {} } }; $z.Dispose() } catch { Write-Error $_.Exception.Message; exit 1 }; if (-not (Test-Path '"@
        + quote_escaped(dest) + "')) { $f = Get-ChildItem '"@ + quote_escaped(bin_dir)
        + "' -Filter '*.exe' | Where-Object { $_.Name -match 'main|whisper' } | Select-Object -First 1; if ($f) { Copy-Item $f.FullName '"@
        + quote_escaped(dest) + "' -Force } }; Remove-Item '"@ + quote_escaped(zip)
        + "' -Force -ErrorAction SilentlyContinue"@
}

/// The message of a failed PowerShell run: the last line of its error
/// output, or of its standard output when the error output is blank, or a
/// fixed text when both are blank.
pub open spec fn ps_failure_spec(stderr: Seq<char>, stdout: Seq<char>) -> Seq<char> {
    if !all_white_space(stderr) {
        last_line(stderr)
    } else if !all_white_space(stdout) {
        last_line(stdout)
    } else {
        "PowerShell exited with error (no message)"@
    }
}

/// The message given when a downloaded archive is smaller than expected.
pub open spec fn too_small_message(size: nat) -> Seq<char> {
    "Downloaded file is too small ("@ + decimal(size / 1024)
        + " KB) — likely a 404 or redirect page"@
}

/// The message given when the whisper archive held no usable executable.
pub open spec fn whisper_missing_spec(found: Seq<Seq<char>>) -> Seq<char> {
    "whisper exe not found in archive. Files extracted: "@ + if found.len() == 0 {
        "(none)"@
    } else {
        joined(found, ", "@)
    }
}

/// Byte offset from which the error output of a tool is quoted: its last
/// 300 bytes.
pub open spec fn quoted_tail_start(len: nat) -> nat {
    if len > 300 {
        (len - 300) as nat
    } else {
        0
    }
}

/// The error message of a tool that failed: its name, then the last 300
/// bytes of its error output.
pub open spec fn tool_error_spec(tool: Seq<char>, stderr: Seq<char>) -> Seq<char> {
    let bytes = encode_utf8(stderr);
    tool + ": "@ + decode_utf8(bytes.subrange(quoted_tail_start(bytes.len()) as int, bytes.len() as int))
}

/// The arguments that make ffmpeg extract a 16 kHz mono WAV file from a video.
pub open spec fn ffmpeg_args_spec(video: Seq<char>, wav: Seq<char>) -> Seq<Seq<char>> {
    seq!["-y"@, "-i"@, video, "-ar"@, "16000"@, "-ac"@, "1"@, "-f"@, "wav"@, wav]
}

/// The arguments that make whisper-cli transcribe a WAV file into an SRT file.
pub open spec fn whisper_args_spec(
    model: Seq<char>,
    wav: Seq<char>,
    lang: Seq<char>,
    out_base: Seq<char>,
) -> Seq<Seq<char>> {
    seq![
        "-m"@,
        model,
        "-f"@,
        wav,
        "-l"@,
        lang,
        "--output-srt"@,
        "--output-file"@,
        out_base,
    ]
}

/// The arguments that run a PowerShell script.
pub fn ps_args(script: &str) -> (r: Vec<String>)
    ensures
        views(r@) == ps_args_spec(script@),
{
    let r = vec![
        String::from_str("-ExecutionPolicy"),
        String::from_str("Bypass"),
        String::from_str("-NoProfile"),
        String::from_str("-Command"),
        String::from_str(script),
    ];
    assert(views(r@) =~= ps_args_spec(script@));
    r
}

/// The PowerShell script that downloads `url` to `dest`.
pub fn download_script(url: &str, dest: &str) -> (r: String)
    ensures
        r@ == download_script_spec(url@, dest@),
{
    let mut s = String::from_str(
        "if (Get-Command curl.exe -ErrorAction SilentlyContinue) { curl.exe -sL -f -o '",
    );
    s.append(dest);
    s.append("' '");
    s.append(url);
    s.append(
        "' } else { [Net.ServicePointManager]::SecurityProtocol = 'Tls12'; (New-Object System.Net.WebClient).DownloadFile('",
    );
    s.append(url);
    s.append("', '");
    s.append(dest);
    s.append("') }");
    s
}

/// The PowerShell invocation that downloads `url` to the file `dest`; the
/// caller runs `powershell` with these arguments.
pub fn download_file(url: &str, dest: &str) -> (r: Vec<String>)
    ensures
        views(r@) == ps_args_spec(download_script_spec(url@, dest@)),
{
    let script = download_script(url, dest);
    ps_args(script.as_str())
}

/// The outcome of a PowerShell run: success, or the message that describes
/// the failure.
pub fn ps_outcome(success: bool, stderr: &str, stdout: &str) -> (r: Result<(), String>)
    ensures
        match r {
            Ok(_) => success,
            Err(m) => !success && m@ == ps_failure_spec(stderr@, stdout@),
        },
{
    if success {
        Ok(())
    } else {
        Err(ps_failure_message(stderr, stdout))
    }
}

/// The message that describes a failed PowerShell run.
pub fn ps_failure_message(stderr: &str, stdout: &str) -> (r: String)
    ensures
        r@ == ps_failure_spec(stderr@, stdout@),
{
    if !is_blank(stderr) {
        last_line_of(stderr)
    } else if !is_blank(stdout) {
        last_line_of(stdout)
    } else {
        String::from_str("PowerShell exited with error (no message)")
    }
}

/// Checks the size of a downloaded archive: an error, stating the size in
/// KB, when it is below `min_bytes`.
pub fn check_zip_size(size: u64, min_bytes: u64) -> (r: Result<(), String>)
    ensures
        match r {
            Ok(_) => size >= min_bytes,
            Err(m) => size < min_bytes && m@ == too_small_message(size as nat),
        },
{
    if size < min_bytes {
        let mut m = String::from_str("Downloaded file is too small (");
        let kb = decimal_string(size / 1024);
        m.append(kb.as_str());
        m.append(" KB) — likely a 404 or redirect page");
        Err(m)
    } else {
        Ok(())
    }
}

/// The PowerShell script that extracts ffmpeg.exe from the archive `zip` to `dest`.
pub fn ffmpeg_extract_script(zip: &str, dest: &str) -> (r: String)
    ensures
        r@ == ffmpeg_extract_script_spec(zip@, dest@),
{
    let zip_s = escape_single_quotes(zip);
    let dst_s = escape_single_quotes(dest);
    let mut s = String::from_str(
        "Add-Type -Assembly System.IO.Compression.FileSystem; $z = [System.IO.Compression.ZipFile]::OpenRead('",
    );
    s.append(zip_s.as_str());
    s.append(
        "'); $e = $z.Entries | Where-Object { $_.Name -eq 'ffmpeg.exe' } | Select-Object -First 1; if ($e) { [System.IO.Compression.ZipFileExtensions]::ExtractToFile($e, '",
    );
    s.append(dst_s.as_str());
    s.append("', $true) }; $z.Dispose(); Remove-Item '");
    s.append(zip_s.as_str());
    s.append("' -Force -ErrorAction SilentlyContinue");
    s
}

/// The PowerShell script that extracts the whisper archive `zip` into
/// `bin_dir` and makes sure that `dest` holds a whisper executable.
pub fn whisper_extract_script(bin_dir: &str, zip: &str, dest: &str) -> (r: String)
    ensures
        r@ == whisper_extract_script_spec(bin_dir@, zip@, dest@),
{
    let bin_s = escape_single_quotes(bin_dir);
    let zip_s = escape_single_quotes(zip);
    let dst_s = escape_single_quotes(dest);
    let mut s = String::from_str(
        "Add-Type -Assembly System.IO.Compression.FileSystem; try { $z = [System.IO.Compression.ZipFile]::OpenRead('",
    );
    s.append(zip_s.as_str());
    s.append("'); foreach ($e in $z.Entries) { if ($e.Name -ne '') { $d = Join-Path '");
    s.append(bin_s.as_str());
    s.append(
        "' $e.Name; try { [System.IO.Compression.ZipFileExtensions]::ExtractToFile($e, $d, $true) } catch {} } }; $z.Dispose() } catch { Write-Error $_.Exception.Message; exit 1 }; if (-not (Test-Path '",
    );
    s.append(dst_s.as_str());
    s.append("')) { $f = Get-ChildItem '");
    s.append(bin_s.as_str());
    s.append(
        "' -Filter '*.exe' | Where-Object { $_.Name -match 'main|whisper' } | Select-Object -First 1; if ($f) { Copy-Item $f.FullName '",
    );
    s.append(dst_s.as_str());
    s.append("' -Force } }; Remove-Item '");
    s.append(zip_s.as_str());
    s.append("' -Force -ErrorAction SilentlyContinue");
    s
}

/// The outcome of the ffmpeg extraction, from whether ffmpeg.exe exists after it.
pub fn ffmpeg_extraction_outcome(dest_exists: bool) -> (r: Result<(), String>)
    ensures
        match r {
            Ok(_) => dest_exists,
            Err(m) => !dest_exists && m@ == "ffmpeg.exe not found after extraction"@,
        },
{
    if dest_exists {
        Ok(())
    } else {
        Err(String::from_str("ffmpeg.exe not found after extraction"))
    }
}

/// `list` joined with `sep`.
pub fn join_strings(list: &Vec<String>, sep: &str) -> (r: String)
    ensures
        r@ == joined(views(list@), sep@),
{
    let ghost vs = views(list@);
    let mut res = String::new();
    let n = list.len();
    let mut i: usize = 0;
    while i < n
        invariant
            n == list@.len(),
            vs == views(list@),
            i <= n,
            res@ == joined(vs.take(i as int), sep@),
        decreases n - i,
    {
        if i != 0 {
            res.append(sep);
        }
        res.append(list[i].as_str());
        assert(vs.take(i + 1).drop_last() =~= vs.take(i as int));
        assert(vs.take(i + 1).last() == list@[i as int]@);
        i = i + 1;
    }
    assert(vs.take(n as int) =~= vs);
    res
}

/// The message given when the whisper archive held no usable executable,
/// listing the files that the extraction left in the tool directory.
pub fn whisper_missing_message(found: &Vec<String>) -> (r: String)
    ensures
        r@ == whisper_missing_spec(views(found@)),
{
    let mut m = String::from_str("whisper exe not found in archive. Files extracted: ");
    if found.len() == 0 {
        m.append("(none)");
    } else {
        let j = join_strings(found, ", ");
        m.append(j.as_str());
    }
    m
}

/// The error message of a tool that failed: `"<tool>: "` followed by the
/// last 300 bytes of its error output. The cut must fall on a character
/// boundary.
pub fn tool_error_message(tool: &str, stderr: &str) -> (r: String)
    requires
        stderr.spec_bytes().len() <= usize::MAX,
        is_char_boundary(
            stderr.spec_bytes(),
            quoted_tail_start(stderr.spec_bytes().len()) as int,
        ),
    ensures
        r@ == tool_error_spec(tool@, stderr@),
{
    let n = stderr.len();
    let start: usize = if n > 300 {
        n - 300
    } else {
        0
    };
    let (_, tail) = stderr.split_at(start);
    proof {
        broadcast use encode_utf8_decode_utf8;

        assert(decode_utf8(tail.spec_bytes()) == tail@);
    }
    let mut m = String::from_str(tool);
    m.append(": ");
    m.append(tail);
    m
}

/// Name of the temporary WAV file extracted from a video with file stem `stem`.
pub fn temp_wav_name(stem: &str) -> (r: String)
    ensures
        r@ == stem@ + "_temp.wav"@,
{
    let mut s = String::from_str(stem);
    s.append("_temp.wav");
    s
}

/// Name of the subtitle file written for a video with file stem `stem`.
pub fn srt_name(stem: &str) -> (r: String)
    ensures
        r@ == stem@ + ".srt"@,
{
    let mut s = String::from_str(stem);
    s.append(".srt");
    s
}

/// The arguments that make ffmpeg extract the audio of `video` into `wav`.
pub fn ffmpeg_args(video: &str, wav: &str) -> (r: Vec<String>)
    ensures
        views(r@) == ffmpeg_args_spec(video@, wav@),
{
    let r = vec![
        String::from_str("-y"),
        String::from_str("-i"),
        String::from_str(video),
        String::from_str("-ar"),
        String::from_str("16000"),
        String::from_str("-ac"),
        String::from_str("1"),
        String::from_str("-f"),
        String::from_str("wav"),
        String::from_str(wav),
    ];
    assert(views(r@) =~= ffmpeg_args_spec(video@, wav@));
    r
}

/// The arguments that make whisper-cli transcribe `wav` with `model` in
/// language `lang`, writing `<out_base>.srt`.
pub fn whisper_args(model: &str, wav: &str, lang: &str, out_base: &str) -> (r: Vec<String>)
    ensures
        views(r@) == whisper_args_spec(model@, wav@, lang@, out_base@),
{
    let r = vec![
        String::from_str("-m"),
        String::from_str(model),
        String::from_str("-f"),
        String::from_str(wav),
        String::from_str("-l"),
        String::from_str(lang),
        String::from_str("--output-srt"),
        String::from_str("--output-file"),
        String::from_str(out_base),
    ];
    assert(views(r@) =~= whisper_args_spec(model@, wav@, lang@, out_base@));
    r
}

/// ffmpeg is called as `-y -i <video> -ar 16000 -ac 1 -f wav <wav>`: the video
/// and WAV paths are passed through exactly as given, whatever characters
/// they hold, and the remaining arguments ask for a 16 kHz mono WAV file that
/// may overwrite an existing one.
pub proof fn law_ffmpeg_args_pass_paths_through(video: Seq<char>, wav: Seq<char>)
    ensures
        ffmpeg_args_spec(video, wav).len() == 10,
        ffmpeg_args_spec(video, wav)[0] == "-y"@,
        ffmpeg_args_spec(video, wav)[1] == "-i"@,
        ffmpeg_args_spec(video, wav)[2] == video,
        ffmpeg_args_spec(video, wav)[3] == "-ar"@,
        ffmpeg_args_spec(video, wav)[4] == "16000"@,
        ffmpeg_args_spec(video, wav)[5] == "-ac"@,
        ffmpeg_args_spec(video, wav)[6] == "1"@,
        ffmpeg_args_spec(video, wav)[7] == "-f"@,
        ffmpeg_args_spec(video, wav)[8] == "wav"@,
        ffmpeg_args_spec(video, wav)[9] == wav,
{
}

/// whisper-cli is called as `-m <model> -f <wav> -l <lang> --output-srt
/// --output-file <out_base>`: every path and the language code are passed
/// through exactly as given.
pub proof fn law_whisper_args_pass_values_through(
    model: Seq<char>,
    wav: Seq<char>,
    lang: Seq<char>,
    out_base: Seq<char>,
)
    ensures
        whisper_args_spec(model, wav, lang, out_base).len() == 9,
        whisper_args_spec(model, wav, lang, out_base)[0] == "-m"@,
        whisper_args_spec(model, wav, lang, out_base)[1] == model,
        whisper_args_spec(model, wav, lang, out_base)[2] == "-f"@,
        whisper_args_spec(model, wav, lang, out_base)[3] == wav,
        whisper_args_spec(model, wav, lang, out_base)[4] == "-l"@,
        whisper_args_spec(model, wav, lang, out_base)[5] == lang,
        whisper_args_spec(model, wav, lang, out_base)[6] == "--output-srt"@,
        whisper_args_spec(model, wav, lang, out_base)[7] == "--output-file"@,
        whisper_args_spec(model, wav, lang, out_base)[8] == out_base,
{
}

} // verus!
