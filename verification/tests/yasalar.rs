use tallis::belge::sayfa_listesi;
use tallis::clie::Lang;
use tallis::destiny::{aday_adi, generate_unique_name};
use tallis::siralama::{kronolojik_sira, yol_sirasi_bul, DosyaZamani, YolBilesenleri};
use tallis::storme::{basliklari_sil, Storme};
use tallis::uzanti::{belge_turunu_bul, hedef_uzanti, kucuk_uzanti_bul, BelgeTuru};

const ANAHTARLAR: [&str; 39] = [
    "destiny_start", "destiny_warn", "destiny_done", "forge_model_found", "forge_model_missing",
    "forge_scanning", "forge_done", "quozart_scanning", "quozart_done", "no_files", "report_file",
    "model_not_found", "prompt_select", "aborted", "downloading", "success_download",
    "venexus_init_error", "pdf_detected", "left_page_error", "right_page_error", "saving_markdown",
    "success_label", "fail_label", "md_data", "md_source", "md_mode", "pdf_extract_error",
    "image_file_pointer", "forge_saving_corpus", "forge_success_count", "corpus_doc",
    "download_failed", "error_tokenizer_load_failed", "error_token_decode_failed",
    "error_vision_encoder_forward_failed", "error_no_safetensors_found", "metal_active",
    "cuda_active", "cpu_active",
];

fn alt_dizi_mi(a: &str, b: &str) -> bool {
    let mut kalan = b.chars();
    a.chars().all(|c| kalan.any(|d| d == c))
}

#[test]
fn mesajlarin_hepsi_farkli() {
    let mut metinler: Vec<&str> = Vec::new();
    for a in ANAHTARLAR.iter() {
        metinler.push(Lang::Tr.t(a));
        metinler.push(Lang::En.t(a));
    }
    for i in 0..metinler.len() {
        for j in (i + 1)..metinler.len() {
            assert_ne!(metinler[i], metinler[j]);
        }
    }
    assert_eq!(metinler.len(), 78);
}

#[test]
fn daha_cok_temizlik_alt_dizi_verir() {
    let girdiler = [
        "KAPAK\nChapter 1\nMetin burada\n[1] not\n\n12\nDevam eden satir\n2. dipnot.\nSON",
        "a\n\n\nb\n- 3 -\nc",
        "",
        "ÖNSÖZ\n\nBölüm iki\nyazı",
    ];
    let bayraklar = [(false, false), (false, true), (true, false), (true, true)];
    for g in girdiler.iter() {
        for &(b1, d1) in bayraklar.iter() {
            for &(b2, d2) in bayraklar.iter() {
                if (!b1 || b2) && (!d1 || d2) {
                    let hafif = Storme::akademik_temizle(g, b1, d1);
                    let agir = Storme::akademik_temizle(g, b2, d2);
                    assert!(alt_dizi_mi(&agir, &hafif), "{:?} {:?}", agir, hafif);
                    assert!(agir.chars().count() <= hafif.chars().count());
                }
            }
        }
    }
    assert_eq!(
        Storme::akademik_temizle("KAPAK\nMetin\n12\nSON", true, true),
        "Metin"
    );
    assert_eq!(
        Storme::akademik_temizle("KAPAK\nMetin\n12\nSON", false, false),
        "KAPAK Metin 12 SON"
    );
}

#[test]
fn ardisik_adlar_tekrarlanmaz() {
    let dizindeki = vec!["s_1.jpg".to_string(), "s_2_1.jpg".to_string(), "s_3.jpg".to_string()];
    let mut used = vec!["s_2.jpg".to_string()];
    let mut verilen = Vec::new();
    for n in [1usize, 2, 2, 3, 1, 2].iter() {
        let mut sayac = 0;
        let ad = loop {
            let var = dizindeki.contains(&aday_adi("s", *n, sayac, "jpg"));
            if let Some(ad) = generate_unique_name("s", *n, sayac, &mut used, "jpg", var) {
                break ad;
            }
            sayac += 1;
        };
        assert!(!dizindeki.contains(&ad));
        assert!(!verilen.contains(&ad));
        verilen.push(ad);
    }
    assert_eq!(
        verilen,
        vec!["s_1_1.jpg", "s_2_2.jpg", "s_2_3.jpg", "s_3_1.jpg", "s_1_2.jpg", "s_2_4.jpg"]
    );
    let mut beklenen = vec!["s_2.jpg".to_string()];
    beklenen.extend(verilen.iter().cloned());
    assert_eq!(used, beklenen);
}

#[test]
fn esit_kayitlar_sirasini_korur() {
    let dosyalar = vec![
        DosyaZamani { zaman: 5, ad: b"a.jpg".to_vec() },
        DosyaZamani { zaman: 1, ad: b"b.jpg".to_vec() },
        DosyaZamani { zaman: 5, ad: b"a.jpg".to_vec() },
        DosyaZamani { zaman: 5, ad: b"a.jpg".to_vec() },
    ];
    assert_eq!(kronolojik_sira(&dosyalar), vec![1, 0, 2, 3]);
    let yol = |s: &str| YolBilesenleri {
        bilesenler: s.split('/').map(|p| p.as_bytes().to_vec()).collect(),
    };
    let yollar = vec![yol("d/b"), yol("d/a"), yol("d/b"), yol("d/a")];
    assert_eq!(yol_sirasi_bul(&yollar), vec![1, 3, 0, 2]);
}

#[test]
fn ascii_kucuk_harf() {
    assert_eq!(kucuk_uzanti_bul("KITAP.TXT"), "txt");
    assert_eq!(kucuk_uzanti_bul("kitap"), "");
    assert_eq!(belge_turunu_bul("a.TXT"), BelgeTuru::Metin);
    assert_eq!(belge_turunu_bul("a.JpEg"), BelgeTuru::Gorsel);
    assert_eq!(hedef_uzanti(""), "");
    assert_eq!(hedef_uzanti(".PdF"), "pdf");
}

fn cift(a: &str, b: &str) -> (String, String) {
    (a.to_string(), b.to_string())
}

#[test]
fn sayfa_listesi_metin_dosyasi() {
    let r = sayfa_listesi(BelgeTuru::Metin, false, false, Some("A\nB".to_string()), None, None, Lang::Tr);
    assert_eq!(r, vec![cift("A\nB", "duz_metin")]);
    let r = sayfa_listesi(BelgeTuru::Metin, true, false, Some("A\nB".to_string()), None, None, Lang::Tr);
    assert!(r.is_empty());
    let r = sayfa_listesi(BelgeTuru::Metin, false, false, None, None, None, Lang::Tr);
    assert!(r.is_empty());
    let r = sayfa_listesi(
        BelgeTuru::Metin,
        false,
        true,
        Some("BAŞLIK\ngövde\nmetni".to_string()),
        None,
        None,
        Lang::Tr,
    );
    assert_eq!(r, vec![cift("gövde\nmetni", "duz_metin")]);
}

#[test]
fn sayfa_listesi_gorsel() {
    let r = sayfa_listesi(
        BelgeTuru::Gorsel,
        true,
        false,
        None,
        Some(Ok("sol metin".to_string())),
        Some(Err("zaman asimi".to_string())),
        Lang::En,
    );
    assert_eq!(
        r,
        vec![cift("sol metin", "sol"), cift("[Right Page Read Error: zaman asimi]", "sag")]
    );
    let r = sayfa_listesi(
        BelgeTuru::Gorsel,
        false,
        true,
        None,
        Some(Ok("ÜST\nbir\niki".to_string())),
        Some(Ok("x".to_string())),
        Lang::Tr,
    );
    assert_eq!(r, vec![cift("bir\niki", "sol"), cift("x", "sag")]);
    let r = sayfa_listesi(BelgeTuru::Gorsel, false, false, None, None, None, Lang::Tr);
    assert!(r.is_empty());
}

#[test]
fn sayfa_listesi_pdf_ve_diger() {
    let metin = Some("metin".to_string());
    assert!(sayfa_listesi(BelgeTuru::Pdf, false, false, metin.clone(), None, None, Lang::Tr).is_empty());
    assert!(sayfa_listesi(BelgeTuru::Diger, false, true, metin, None, None, Lang::En).is_empty());
}

#[test]
fn basliklar_silinir_gerisi_aynen_kalir() {
    assert_eq!(
        basliklari_sil("BAŞLIK\n  gövde  \r\n\nmetin\n"),
        "  gövde  \r\n\nmetin\n"
    );
    let duz = "a\n  b c \r\n\n\nd\n";
    assert_eq!(basliklari_sil(duz), duz);
    assert_eq!(basliklari_sil(""), "");
    let metin = "1\n2\n3\nChapter dört\n5\n6\n7\nSON";
    assert_eq!(basliklari_sil(metin), "1\n2\n3\nChapter dört\n5\n6\n7");
    assert_eq!(basliklari_sil("Chapter 1\nmetin"), "metin");
}
