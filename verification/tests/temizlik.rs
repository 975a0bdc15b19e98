use tallis::clie::Lang;
use tallis::metin::{bosluk_mu, karakter_bayt_sayisi, karakterler};
use tallis::storme::Storme;

fn temizle(s: &str, baslik: bool, dip: bool) -> String {
    Storme::akademik_temizle(s, baslik, dip)
}

#[test]
fn paragraflar_birlesir() {
    assert_eq!(
        temizle("Hello\nworld\n\nSecond para", false, false),
        "Hello world\n\nSecond para"
    );
}

#[test]
fn bos_metin_bos_kalir() {
    assert_eq!(temizle("", true, true), "");
    assert_eq!(temizle("   \n\t\n  ", true, true), "");
}

#[test]
fn satirlar_kirpilir_ve_crlf_atilir() {
    assert_eq!(temizle("  a b  \r\n\r\n c \r\n", false, false), "a b\n\nc");
}

#[test]
fn cok_bos_satir_tek_ayirici_olur() {
    assert_eq!(temizle("a\n\n\n\nb\n\n", false, false), "a\n\nb");
}

#[test]
fn sayfa_numaralari_yalniz_istenince_atilir() {
    assert_eq!(temizle("Metin\n12\nDevam", false, false), "Metin 12 Devam");
    assert_eq!(temizle("Metin\n12\nDevam", true, false), "Metin 12 Devam");
    assert_eq!(temizle("Text line\n12\nMore", false, true), "Text line More");
    assert_eq!(temizle("x\n- 4 -\ny", false, true), "x y");
    assert_eq!(temizle("x\n- 4 -\ny", false, false), "x - 4 - y");
    // seven bytes: still a page number
    assert_eq!(temizle("x\n1234567\ny", false, true), "x y");
    // eight bytes: long enough to stay
    assert_eq!(temizle("x\n12345678\ny", false, true), "x 12345678 y");
}

#[test]
fn uzun_tire_bayt_olarak_sayilir() {
    // "— 12 —" is 10 bytes in UTF-8, so it is not taken for a page number
    assert_eq!(temizle("x\n— 12 —\ny", false, true), "x — 12 — y");
    // "—12" is 5 bytes
    assert_eq!(temizle("x\n—12\ny", false, true), "x y");
    assert_eq!(temizle("x\n—12\ny", false, false), "x —12 y");
}

#[test]
fn basliklar_yalniz_istenince_atilir() {
    let metin = "Chapter 1\nBody text here\nmore body\nand more\nlast words\nfinal\nINTRODUCTION";
    assert_eq!(
        temizle(metin, false, false),
        "Chapter 1 Body text here more body and more last words final INTRODUCTION"
    );
    assert_eq!(
        temizle(metin, true, false),
        "Body text here more body and more last words final"
    );
}

#[test]
fn baslik_yalniz_sayfa_kenarinda() {
    // the heading sits on the fourth of eight lines: it is not at the page edge
    let metin = "a\nb\nc\nSection Two\nd\ne\nf\ng";
    assert_eq!(temizle(metin, true, false), "a b c Section Two d e f g");
    let metin2 = "a\nb\nSection Two\nd\ne\nf\ng\nh";
    assert_eq!(temizle(metin2, true, false), "a b d e f g h");
}

#[test]
fn baslik_kelime_siniri() {
    // six words is too long for a heading
    assert_eq!(
        temizle("Bölüm bir iki üç dört beş\nbody", true, false),
        "Bölüm bir iki üç dört beş body"
    );
    assert_eq!(temizle("Bölüm bir iki üç dört\nbody", true, false), "body");
}

#[test]
fn buyuk_harfli_satir_bosluksuz_olmali() {
    // the space is not uppercase, so a spaced capital line is no heading
    assert_eq!(temizle("CHAPTER ONE\nbody", true, false), "CHAPTER ONE body");
    assert_eq!(temizle("ÖNSÖZ\nbody", true, false), "body");
}

#[test]
fn dipnotlar_yalniz_istenince_atilir() {
    let metin = "Body text\n[1] see page\n2. Footnote text\n3 without dot";
    assert_eq!(
        temizle(metin, false, false),
        "Body text [1] see page 2. Footnote text 3 without dot"
    );
    assert_eq!(temizle(metin, false, true), "Body text 3 without dot");
}

#[test]
fn uzun_dipnot_kalir() {
    let uzun = "1. This footnote is long enough to be kept in.";
    assert!(uzun.len() >= 40);
    assert_eq!(temizle(&format!("x\n{}", uzun), false, true), format!("x {}", uzun));
    let koseli = "[this bracket note is thirty bytes]";
    assert!(koseli.len() >= 30 && koseli.len() < 40);
    assert_eq!(temizle(&format!("x\n{}", koseli), false, true), format!("x {}", koseli));
}

#[test]
fn sonuc_bosluk_ile_baslamaz_bitmez() {
    let girdiler = ["\n\n  a  \n b\n\n\n c \n\n", " 1 \n x \n 2 ", "\t\t", "[1] a\n\nz\n"];
    for g in girdiler.iter() {
        for &b in [false, true].iter() {
            for &d in [false, true].iter() {
                let r = temizle(g, b, d);
                assert_eq!(r.trim(), r);
                assert!(!r.contains("\n\n\n"));
            }
        }
    }
}

#[test]
fn sayfa_numarasi_paragraf_olarak_kalmaz() {
    let girdiler = ["1\n\n2\n\n3", "abc\n\n12\n\n- 7 -\n\ndef", "12345678\n9"];
    assert_eq!(temizle(girdiler[0], false, false), "1\n\n2\n\n3");
    for g in girdiler.iter() {
        let r = temizle(g, false, true);
        for p in r.split("\n\n") {
            let sayisal = p
                .chars()
                .all(|c| c.is_ascii_digit() || c.is_whitespace() || c == '-' || c == '—');
            assert!(!(sayisal && p.len() < 8) || p.is_empty(), "{:?}", p);
        }
    }
}

#[test]
fn bosluk_std_ile_ayni() {
    for k in 0u32..0x110000 {
        if let Some(c) = char::from_u32(k) {
            assert_eq!(bosluk_mu(c), c.is_whitespace(), "{:#x}", k);
            assert_eq!(karakter_bayt_sayisi(c), c.len_utf8(), "{:#x}", k);
        }
    }
}

#[test]
fn karakterlere_ayirma() {
    assert_eq!(karakterler("aç€😀"), vec!['a', 'ç', '€', '😀']);
}

#[test]
fn ceviriler() {
    assert_eq!(Lang::Tr.t("md_data"), "Veri");
    assert_eq!(Lang::En.t("md_data"), "Data");
    assert_eq!(Lang::En.t("no_files"), "ERROR: No supported files found in the specified directory.");
    assert_eq!(Lang::Tr.t("cpu_active"), "[-] GPU bulunamadı, CPU modunda çalışıyor.");
    assert_eq!(Lang::Tr.t("prompt_select"), "\nSeçiminiz [1-2]: ");
    assert_eq!(Lang::En.t("bilinmeyen"), "");
    assert_eq!(Lang::Tr.t(""), "");
    assert_eq!(Lang::default(), Lang::Tr);
}

#[test]
fn bilinen_anahtarlarin_metni_var() {
    let anahtarlar = ["destiny_start", "destiny_warn", "destiny_done", "forge_model_found", "forge_model_missing", "forge_scanning", "forge_done", "quozart_scanning", "quozart_done", "no_files", "report_file", "model_not_found", "prompt_select", "aborted", "downloading", "success_download", "venexus_init_error", "pdf_detected", "left_page_error", "right_page_error", "saving_markdown", "success_label", "fail_label", "md_data", "md_source", "md_mode", "pdf_extract_error", "image_file_pointer", "forge_saving_corpus", "forge_success_count", "corpus_doc", "download_failed", "error_tokenizer_load_failed", "error_token_decode_failed", "error_vision_encoder_forward_failed", "error_no_safetensors_found", "metal_active", "cuda_active", "cpu_active"];
    for a in anahtarlar.iter() {
        assert!(!Lang::Tr.t(a).is_empty(), "{}", a);
        assert!(!Lang::En.t(a).is_empty(), "{}", a);
    }
    assert_eq!(Lang::En.t("Destiny_start"), "");
}
