use rcli::{
    constant_time_eq, process_decode, process_encode, process_genpass, same_text, Base64Format,
    CsvOpts, Generator, GenpassOpts, OutputFormat, TextSignFormat,
};

const UPPER: &[u8] = b"ABCDEFGHIJKLMNPQRSTUVWXYZ";
const LOWER: &[u8] = b"abcdefghjkmnopqrstuvwxyz";
const NUMBER: &[u8] = b"123456789";
const SYMBOL: &[u8] = b"!@#$%^&*?~";

#[test]
fn constant_time_eq_compares_whole_strings() {
    assert!(constant_time_eq(b"", b""));
    assert!(constant_time_eq(b"abc", b"abc"));
    assert!(!constant_time_eq(b"abc", b"abd"));
    assert!(!constant_time_eq(b"xbc", b"abc"));
    assert!(!constant_time_eq(b"abc", b"abcd"));
}

#[test]
fn formats_parse_in_any_case() {
    assert_eq!(TextSignFormat::parse("blake3"), Some(TextSignFormat::Blake3));
    assert_eq!(TextSignFormat::parse("BLAKE3"), Some(TextSignFormat::Blake3));
    assert_eq!(TextSignFormat::parse("Ed25519"), Some(TextSignFormat::Ed25519));
    assert_eq!(
        TextSignFormat::parse("ChaCha20Poly1305"),
        Some(TextSignFormat::ChaCha20Poly1305)
    );
    assert_eq!(TextSignFormat::parse("rsa"), None);
    assert_eq!(TextSignFormat::from_lowercase("BLAKE3"), None);
    assert_eq!(TextSignFormat::Ed25519.as_str(), "Ed25519");
    assert_eq!(Base64Format::parse("UrlSafe"), Some(Base64Format::UrlSafe));
    assert_eq!(Base64Format::parse("nopadding"), Some(Base64Format::NoPadding));
    assert_eq!(Base64Format::parse("standard"), Some(Base64Format::Standard));
    assert_eq!(Base64Format::parse("hex"), None);
    assert_eq!(Base64Format::NoPadding.as_str(), "nopadding");
    assert_eq!(OutputFormat::parse("YAML"), Some(OutputFormat::Yaml));
    assert_eq!(OutputFormat::parse("json"), Some(OutputFormat::Json));
    assert_eq!(OutputFormat::parse("toml"), None);
    assert!(same_text("abc", "abc"));
    assert!(!same_text("abc", "abC"));
}

#[test]
fn csv_output_path_defaults_to_format_name() {
    let mut opts = CsvOpts {
        header: true,
        delimiter: ',',
        input: "in.csv".to_string(),
        output: None,
        format: OutputFormat::Yaml,
    };
    assert_eq!(opts.output_path(), "output.yaml");
    opts.format = OutputFormat::Json;
    assert_eq!(opts.output_path(), "output.json");
    opts.output = Some("x.json".to_string());
    assert_eq!(opts.output_path(), "x.json");
}

fn count_in(p: &[u8], class: &[u8]) -> usize {
    p.iter().filter(|c| class.contains(c)).count()
}

#[test]
fn password_has_every_class() {
    for length in [4u8, 5, 16, 32, 255] {
        let p = process_genpass(false, false, false, false, length);
        assert_eq!(p.len(), length as usize);
        assert!(count_in(&p, UPPER) >= 1);
        assert!(count_in(&p, LOWER) >= 1);
        assert!(count_in(&p, NUMBER) >= 1);
        assert!(count_in(&p, SYMBOL) >= 1);
        assert_eq!(
            count_in(&p, UPPER) + count_in(&p, LOWER) + count_in(&p, NUMBER) + count_in(&p, SYMBOL),
            p.len()
        );
    }
}

#[test]
fn password_leaves_out_classes() {
    let p = process_genpass(true, false, true, true, 20);
    assert_eq!(p.len(), 20);
    assert_eq!(count_in(&p, LOWER), 20);
    let p = process_genpass(false, true, false, true, 12);
    assert_eq!(count_in(&p, UPPER) + count_in(&p, NUMBER), 12);
    assert!(count_in(&p, UPPER) >= 1);
    assert!(count_in(&p, NUMBER) >= 1);
}

#[test]
fn short_password_takes_some_classes() {
    let p = process_genpass(false, false, false, false, 2);
    assert_eq!(p.len(), 2);
    assert_eq!(process_genpass(false, false, false, false, 0), Vec::<u8>::new());
    assert_eq!(process_genpass(true, true, true, true, 0), Vec::<u8>::new());
}

#[test]
fn generator_builder() {
    let g = Generator::new().no_upper(true).no_symbol(true).build();
    let p = g.generate(30);
    assert_eq!(p.len(), 30);
    assert_eq!(count_in(&p, LOWER) + count_in(&p, NUMBER), 30);
    let g = Generator::new().no_lower(true).no_number(true).no_upper(true).build();
    let p = g.generate(8);
    assert_eq!(count_in(&p, SYMBOL), 8);
}

#[test]
fn genpass_options() {
    let opts = GenpassOpts {
        no_upper: true,
        no_lower: true,
        no_number: true,
        no_symbol: true,
        length: 16,
    };
    assert_eq!(opts.password(), None);
    let opts = GenpassOpts {
        no_upper: false,
        no_lower: true,
        no_number: true,
        no_symbol: true,
        length: 16,
    };
    let p = opts.password().unwrap();
    assert_eq!(count_in(&p, UPPER), 16);
}

#[test]
fn base64_forms() {
    assert_eq!(process_encode(b"hello,world!", Base64Format::Standard), "aGVsbG8sd29ybGQh");
    assert_eq!(process_encode(b"ab", Base64Format::Standard), "YWI=");
    assert_eq!(process_encode(b"ab", Base64Format::UrlSafe), "YWI=");
    assert_eq!(process_encode(b"ab", Base64Format::NoPadding), "YWI");
    assert_eq!(process_encode(b"a", Base64Format::NoPadding), "YQ");
    assert_eq!(process_encode(&[0xfb, 0xff], Base64Format::Standard), "+/8=");
    assert_eq!(process_encode(&[0xfb, 0xff], Base64Format::UrlSafe), "-_8=");
    assert_eq!(process_encode(&[0xfb, 0xff], Base64Format::NoPadding), "-_8");
    assert_eq!(process_encode(b"", Base64Format::Standard), "");
    assert_eq!(process_decode("+/8=", Base64Format::Standard), Some(vec![0xfb, 0xff]));
    assert_eq!(process_decode("-_8", Base64Format::NoPadding), Some(vec![0xfb, 0xff]));
    assert_eq!(process_decode("-_8=", Base64Format::UrlSafe), Some(vec![0xfb, 0xff]));
    assert_eq!(process_decode("+/8=", Base64Format::UrlSafe), None);
    assert_eq!(process_decode("YWI=", Base64Format::NoPadding), None);
    assert_eq!(process_decode("*", Base64Format::Standard), None);
    for n in 0..20usize {
        let data: Vec<u8> = (0..n).map(|i| (i * 37) as u8).collect();
        for f in [Base64Format::Standard, Base64Format::UrlSafe, Base64Format::NoPadding] {
            let text = process_encode(&data, f);
            assert_eq!(process_decode(&text, f), Some(data.clone()));
        }
    }
}
