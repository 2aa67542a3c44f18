use altyazi_uretici::tools::{
    check_zip_size, download_file, download_script, ffmpeg_args, ffmpeg_extract_script,
    ffmpeg_extraction_outcome, join_strings, ps_args, ps_failure_message, ps_outcome,
    srt_name, temp_wav_name, tool_error_message, whisper_args, whisper_extract_script,
    whisper_missing_message,
};

fn strings(v: &[&str]) -> Vec<String> {
    v.iter().map(|s| s.to_string()).collect()
}

#[test]
fn download_script_matches_format() {
    let url = "https://example.org/a.zip";
    let dest = "C:\\tmp\\a.zip";
    let expected = format!(
        "if (Get-Command curl.exe -ErrorAction SilentlyContinue) {{ \
            curl.exe -sL -f -o '{}' '{}' \
         }} else {{ \
            [Net.ServicePointManager]::SecurityProtocol = 'Tls12'; \
            (New-Object System.Net.WebClient).DownloadFile('{}', '{}') \
         }}",
        dest, url, url, dest
    );
    assert_eq!(download_script(url, dest), expected);
}

#[test]
fn download_file_runs_powershell_script() {
    let args = download_file("u", "d");
    assert_eq!(args.len(), 5);
    assert_eq!(args[0], "-ExecutionPolicy");
    assert_eq!(args[1], "Bypass");
    assert_eq!(args[2], "-NoProfile");
    assert_eq!(args[3], "-Command");
    assert_eq!(args[4], download_script("u", "d"));
    assert_eq!(ps_args("x"), strings(&["-ExecutionPolicy", "Bypass", "-NoProfile", "-Command", "x"]));
}

#[test]
fn ffmpeg_script_escapes_quotes() {
    let zip = "C:\\Users\\O'Neil\\_sg_ffmpeg.zip";
    let dest = "D:\\it's\\bin\\ffmpeg.exe";
    let zip_s = zip.replace('\'', "''");
    let dst_s = dest.replace('\'', "''");
    let expected = format!(
        "Add-Type -Assembly System.IO.Compression.FileSystem; \
         $z = [System.IO.Compression.ZipFile]::OpenRead('{zip_s}'); \
         $e = $z.Entries | Where-Object {{ $_.Name -eq 'ffmpeg.exe' }} | Select-Object -First 1; \
         if ($e) {{ [System.IO.Compression.ZipFileExtensions]::ExtractToFile($e, '{dst_s}', $true) }}; \
         $z.Dispose(); \
         Remove-Item '{zip_s}' -Force -ErrorAction SilentlyContinue"
    );
    let got = ffmpeg_extract_script(zip, dest);
    assert_eq!(got, expected);
    assert!(got.contains("O''Neil"));
}

#[test]
fn whisper_script_escapes_quotes() {
    let bin_dir = "C:\\app's\\bin";
    let zip = "C:\\tmp\\_sg_whisper.zip";
    let dest = "C:\\app's\\bin\\whisper-cli.exe";
    let bin_s = bin_dir.replace('\'', "''");
    let zip_s = zip.replace('\'', "''");
    let dst_s = dest.replace('\'', "''");
    let expected = format!(
        "Add-Type -Assembly System.IO.Compression.FileSystem; \
         try {{ \
           $z = [System.IO.Compression.ZipFile]::OpenRead('{zip_s}'); \
           foreach ($e in $z.Entries) {{ \
             if ($e.Name -ne '') {{ \
               $d = Join-Path '{bin_s}' $e.Name; \
               try {{ [System.IO.Compression.ZipFileExtensions]::ExtractToFile($e, $d, $true) }} catch {{}} \
             }} \
           }}; \
           $z.Dispose() \
         }} catch {{ Write-Error $_.Exception.Message; exit 1 }}; \
         if (-not (Test-Path '{dst_s}')) {{ \
           $f = Get-ChildItem '{bin_s}' -Filter '*.exe' | \
                Where-Object {{ $_.Name -match 'main|whisper' }} | \
                Select-Object -First 1; \
           if ($f) {{ Copy-Item $f.FullName '{dst_s}' -Force }} \
         }}; \
         Remove-Item '{zip_s}' -Force -ErrorAction SilentlyContinue"
    );
    assert_eq!(whisper_extract_script(bin_dir, zip, dest), expected);
}

fn original_ps_message(stderr: &str, stdout: &str) -> String {
    if !stderr.trim().is_empty() {
        stderr.lines().last().unwrap_or("").to_string()
    } else if !stdout.trim().is_empty() {
        stdout.lines().last().unwrap_or("").to_string()
    } else {
        "PowerShell exited with error (no message)".to_string()
    }
}

#[test]
fn ps_failure_takes_last_line() {
    let cases = [
        ("first\nsecond\r\n", ""),
        ("only", "ignored"),
        ("a\n\n", ""),
        ("x\r\ny\r", ""),
        ("  \n\t", "out1\nout2"),
        ("\u{3000}\u{a0}", "line\n"),
        ("", ""),
        (" \n ", "\u{2028}"),
        ("err\n  \n", ""),
    ];
    for (e, o) in cases.iter() {
        assert_eq!(ps_failure_message(e, o), original_ps_message(e, o), "{:?} {:?}", e, o);
    }
    assert_eq!(ps_failure_message("a\nb\r\n", ""), "b");
    assert_eq!(ps_failure_message("", ""), "PowerShell exited with error (no message)");
}

#[test]
fn ps_outcome_success_and_failure() {
    assert_eq!(ps_outcome(true, "ignored", "ignored"), Ok(()));
    assert_eq!(ps_outcome(false, "boom\n", ""), Err("boom".to_string()));
}

#[test]
fn zip_size_check() {
    assert_eq!(check_zip_size(5_000_000, 5_000_000), Ok(()));
    assert_eq!(check_zip_size(9_000_000, 5_000_000), Ok(()));
    assert_eq!(
        check_zip_size(4096, 1_000_000),
        Err("Downloaded file is too small (4 KB) — likely a 404 or redirect page".to_string())
    );
    assert_eq!(
        check_zip_size(0, 1),
        Err("Downloaded file is too small (0 KB) — likely a 404 or redirect page".to_string())
    );
    assert_eq!(
        check_zip_size(1_234_567, 5_000_000),
        Err(format!(
            "Downloaded file is too small ({} KB) — likely a 404 or redirect page",
            1_234_567u64 / 1024
        ))
    );
}

#[test]
fn extraction_outcome() {
    assert_eq!(ffmpeg_extraction_outcome(true), Ok(()));
    assert_eq!(
        ffmpeg_extraction_outcome(false),
        Err("ffmpeg.exe not found after extraction".to_string())
    );
}

#[test]
fn whisper_missing_lists_files() {
    assert_eq!(
        whisper_missing_message(&vec![]),
        "whisper exe not found in archive. Files extracted: (none)"
    );
    assert_eq!(
        whisper_missing_message(&strings(&["a.dll", "b.txt", "c"])),
        "whisper exe not found in archive. Files extracted: a.dll, b.txt, c"
    );
    assert_eq!(join_strings(&strings(&["x"]), ", "), "x");
    assert_eq!(join_strings(&vec![], ", "), "");
}

fn original_tool_error(tool: &str, err: &str) -> String {
    format!("{}: {}", tool, &err[err.len().saturating_sub(300)..])
}

#[test]
fn tool_error_quotes_tail() {
    assert_eq!(tool_error_message("ffmpeg", "bad input"), "ffmpeg: bad input");
    let long: String = (0..500).map(|i| char::from(b'a' + (i % 26) as u8)).collect();
    let got = tool_error_message("whisper", &long);
    assert_eq!(got, original_tool_error("whisper", &long));
    assert_eq!(got.len(), "whisper: ".len() + 300);
    let mixed = format!("{}{}", "é".repeat(200), "x".repeat(100));
    assert!(mixed.is_char_boundary(mixed.len() - 300));
    assert_eq!(tool_error_message("ffmpeg", &mixed), original_tool_error("ffmpeg", &mixed));
}

#[test]
fn file_names_and_arguments() {
    assert_eq!(temp_wav_name("movie"), "movie_temp.wav");
    assert_eq!(srt_name("movie"), "movie.srt");
    assert_eq!(srt_name(""), ".srt");
    assert_eq!(
        ffmpeg_args("in.mp4", "in_temp.wav"),
        strings(&["-y", "-i", "in.mp4", "-ar", "16000", "-ac", "1", "-f", "wav", "in_temp.wav"])
    );
    assert_eq!(
        whisper_args("m.bin", "w.wav", "tr", "dir/movie"),
        strings(&[
            "-m", "m.bin", "-f", "w.wav", "-l", "tr", "--output-srt", "--output-file", "dir/movie"
        ])
    );
}
