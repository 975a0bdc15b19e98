use tallis::belge::{
    cikti_adi_olustur, forge_belgesi, forge_ham_metni, forge_markdown_olustur,
    quozart_hata_kaydi, quozart_markdown_olustur, rapor_adi, sayfa_metnini_al, Rapor,
    SayfaYazimi,
};
use tallis::clie::Lang;
use tallis::destiny::{aday_adi, generate_unique_name};
use tallis::siralama::{kronolojik_sira, yol_sirasi_bul, DosyaZamani, YolBilesenleri};
use tallis::indi::{model_secenekleri, secimi_coz};
use tallis::uretim::TokenUretimi;
use tallis::uzanti::{
    belge_turunu_bul, destiny_dosyasi_mi, forge_dosyasi_mi, hedef_uzanti, kucuk_uzanti_bul,
    quozart_dosyasi_mi, safetensors_mi, uzanti_bul, BelgeTuru,
};

/// Runs the attempts from 0 on, the directory answering from `dizin`, as the program does.
fn serbest_ad(dizin: &Vec<String>, prefix: &str, number: usize, used: &mut Vec<String>, ext: &str) -> String {
    let mut sayac = 0;
    loop {
        let aday = aday_adi(prefix, number, sayac, ext);
        let var = dizin.contains(&aday);
        if let Some(ad) = generate_unique_name(prefix, number, sayac, used, ext, var) {
            return ad;
        }
        sayac += 1;
    }
}

#[test]
fn benzersiz_ad_ilk_deneme() {
    let mut used = Vec::new();
    let r = serbest_ad(&vec![], "sayfa", 1, &mut used, "jpg");
    assert_eq!(r, "sayfa_1.jpg");
    assert_eq!(used, vec!["sayfa_1.jpg".to_string()]);
}

#[test]
fn benzersiz_ad_dolu_adlari_atlar() {
    let dizin = vec!["sayfa_12.jpg".to_string(), "sayfa_12_2.jpg".to_string()];
    let mut used = vec!["sayfa_12_1.jpg".to_string()];
    let r = serbest_ad(&dizin, "sayfa", 12, &mut used, "jpg");
    assert_eq!(r, "sayfa_12_3.jpg");
    assert_eq!(used.len(), 2);
    let r2 = serbest_ad(&dizin, "sayfa", 12, &mut used, "jpg");
    assert_eq!(r2, "sayfa_12_4.jpg");
    let r3 = serbest_ad(&dizin, "sayfa", 13, &mut used, "jpg");
    assert_eq!(r3, "sayfa_13.jpg");
    // no name is handed out twice
    let mut sirali = used.clone();
    sirali.sort();
    sirali.dedup();
    assert_eq!(sirali.len(), used.len());
}

#[test]
fn tek_deneme_karari() {
    let mut used = vec!["a_1.jpg".to_string()];
    assert_eq!(generate_unique_name("a", 1, 0, &mut used, "jpg", false), None);
    assert_eq!(generate_unique_name("a", 1, 1, &mut used, "jpg", true), None);
    assert_eq!(used.len(), 1);
    assert_eq!(generate_unique_name("a", 1, 2, &mut used, "jpg", false), Some("a_1_2.jpg".to_string()));
    assert_eq!(used, vec!["a_1.jpg".to_string(), "a_1_2.jpg".to_string()]);
    assert_eq!(aday_adi("a", 7, 0, "png"), "a_7.png");
    assert_eq!(aday_adi("a", 7, 12, "png"), "a_7_12.png");
}

#[test]
fn benzersiz_ad_sifir_numara() {
    let mut used = Vec::new();
    assert_eq!(serbest_ad(&vec![], "p", 0, &mut used, ""), "p_0.");
    assert_eq!(serbest_ad(&vec![], "p", 0, &mut used, ""), "p_0_1.");
}

#[test]
fn kronolojik_siralama() {
    let dosyalar = vec![
        DosyaZamani { zaman: 30, ad: b"c.jpg".to_vec() },
        DosyaZamani { zaman: 10, ad: b"z.jpg".to_vec() },
        DosyaZamani { zaman: 30, ad: b"a.jpg".to_vec() },
        DosyaZamani { zaman: -5, ad: b"eski.jpg".to_vec() },
        DosyaZamani { zaman: 30, ad: b"a.jp".to_vec() },
    ];
    assert_eq!(kronolojik_sira(&dosyalar), vec![3, 1, 4, 2, 0]);
    assert_eq!(kronolojik_sira(&vec![]), Vec::<usize>::new());
}

#[test]
fn hedef_uzanti_kucultur_ve_nokta_siler() {
    assert_eq!(hedef_uzanti(".JPG"), "jpg");
    assert_eq!(hedef_uzanti("t.a.R"), "tar");
    assert_eq!(hedef_uzanti("İ"), "i\u{307}");
}

#[test]
fn uzantilar() {
    assert_eq!(uzanti_bul("a.tar.gz"), Some("gz".to_string()));
    assert_eq!(uzanti_bul(".bashrc"), None);
    assert_eq!(uzanti_bul(".x.y"), Some("y".to_string()));
    assert_eq!(uzanti_bul("noext"), None);
    assert_eq!(uzanti_bul("a."), Some("".to_string()));
    assert_eq!(uzanti_bul(".."), None);
    assert_eq!(uzanti_bul("..."), Some("".to_string()));
    assert_eq!(uzanti_bul(""), None);
    assert_eq!(kucuk_uzanti_bul("Kitap.PDF"), "pdf");
    assert_eq!(kucuk_uzanti_bul("kitap"), "");
    for ad in ["a.tar.gz", ".bashrc", "a.", "..", "...", "x.JPEG", "dir.d/f"].iter() {
        let std = std::path::Path::new(ad)
            .extension()
            .map(|e| e.to_str().unwrap().to_string());
        assert_eq!(uzanti_bul(ad.rsplit('/').next().unwrap()), std, "{}", ad);
    }
}

#[test]
fn belge_turleri() {
    assert_eq!(belge_turunu_bul("a.TXT"), BelgeTuru::Metin);
    assert_eq!(belge_turunu_bul("a.pdf"), BelgeTuru::Pdf);
    assert_eq!(belge_turunu_bul("a.JpEg"), BelgeTuru::Gorsel);
    assert_eq!(belge_turunu_bul("a.jpg"), BelgeTuru::Gorsel);
    assert_eq!(belge_turunu_bul("a.epub"), BelgeTuru::Diger);
    assert_eq!(belge_turunu_bul("txt"), BelgeTuru::Diger);
}

#[test]
fn kabul_edilen_dosyalar() {
    assert!(forge_dosyasi_mi("X.PDF"));
    assert!(forge_dosyasi_mi("kitap.epub"));
    assert!(!forge_dosyasi_mi("resim.png"));
    assert!(!forge_dosyasi_mi("pdf"));
    assert!(quozart_dosyasi_mi("s.jpeg"));
    assert!(!quozart_dosyasi_mi("kitap.epub"));
    assert!(safetensors_mi("model.safetensors"));
    assert!(!safetensors_mi("model.SAFETENSORS"));
    assert!(!safetensors_mi("safetensors"));
    assert!(destiny_dosyasi_mi("IMG_1.JPG", "jpg"));
    assert!(!destiny_dosyasi_mi("IMG_1.JPG", "jpeg"));
    assert!(!destiny_dosyasi_mi(".jpg", "jpg"));
}

#[test]
fn cikti_adlari() {
    assert_eq!(cikti_adi_olustur("kitap", 7, "md"), "kitap_0007.md");
    assert_eq!(cikti_adi_olustur("kitap", 0, "txt"), "kitap_0000.txt");
    assert_eq!(cikti_adi_olustur("k", 12345, "md"), "k_12345.md");
    assert_eq!(cikti_adi_olustur("k", 999, "md"), format!("k_{:04}.md", 999));
    assert_eq!(rapor_adi("k", "_forge_report.json"), "k_forge_report.json");
}

#[test]
fn markdown_belgeleri() {
    assert_eq!(
        forge_markdown_olustur(Lang::En, "\"a.txt\"", "body"),
        "# Corpus Document\n- Source: \"a.txt\"\n\nbody"
    );
    assert_eq!(
        quozart_markdown_olustur(Lang::Tr, "\"s.jpg\"", "sol", "metin"),
        "# Veri\n- Kaynak: \"s.jpg\"\n- Mod: sol\n\nmetin"
    );
    assert_eq!(quozart_hata_kaydi("\"s.jpg\"", "sag"), "\"s.jpg\" (sag)");
}

#[test]
fn sayfa_okuma_sonuclari() {
    assert_eq!(sayfa_metnini_al(Ok("merhaba".to_string()), false, Lang::En), "merhaba");
    assert_eq!(
        sayfa_metnini_al(Err("boom".to_string()), false, Lang::En),
        "[Left Page Read Error: boom]"
    );
    assert_eq!(
        sayfa_metnini_al(Err("x".to_string()), true, Lang::Tr),
        "[Sağ Sayfa Okuma Hatası: x]"
    );
}

#[test]
fn ham_metinler() {
    assert_eq!(
        forge_ham_metni(BelgeTuru::Metin, Some("abc".to_string()), None, "p", Lang::En),
        "abc"
    );
    assert_eq!(forge_ham_metni(BelgeTuru::Metin, None, None, "p", Lang::En), "");
    assert_eq!(
        forge_ham_metni(BelgeTuru::Pdf, None, None, "\"a.pdf\"", Lang::En),
        "[PDF Text Extraction Error: \"a.pdf\"]"
    );
    assert_eq!(
        forge_ham_metni(BelgeTuru::Gorsel, None, None, "\"a.jpg\"", Lang::Tr),
        "[Görsel / Dosya İşaretçisi: \"a.jpg\"]"
    );
}

#[test]
fn forge_belgeleri() {
    assert_eq!(
        forge_belgesi("a.txt", Some("x\n12\ny".to_string()), None, "\"a.txt\"", Lang::En, false, true),
        "x y"
    );
    assert_eq!(
        forge_belgesi("a.txt", Some("x\n12\ny".to_string()), None, "\"a.txt\"", Lang::En, false, false),
        "x 12 y"
    );
    assert_eq!(
        forge_belgesi("a.pdf", Some("yok".to_string()), Some("p\n\nq".to_string()), "\"a.pdf\"", Lang::En, false, false),
        "p\n\nq"
    );
    assert_eq!(
        forge_belgesi("a.pdf", None, None, "\"a.pdf\"", Lang::En, false, true),
        "[PDF Text Extraction Error: \"a.pdf\"]"
    );
    assert_eq!(
        forge_belgesi("a.pdf", None, None, "\"a.pdf\"", Lang::Tr, false, false),
        "[PDF Metin Çıkarma Hatası: \"a.pdf\"]"
    );
}

#[test]
fn rapor_kayitlari() {
    let mut r = Rapor::yeni();
    assert!(r.sonuc_ekle("a.md".into(), "a.txt".into(), true, true, "x".into()));
    assert!(!r.sonuc_ekle("b.md".into(), "b.txt".into(), true, false, "b".into()));
    assert_eq!(r.basarili, vec!["a.md".to_string(), "a.txt".to_string()]);
    assert_eq!(r.basarisiz, vec!["b".to_string()]);
}

#[test]
fn secim_okuma() {
    assert_eq!(secimi_coz("1\n", 2), Some(0));
    assert_eq!(secimi_coz("  2 ", 2), Some(1));
    assert_eq!(secimi_coz("+1", 2), Some(0));
    assert_eq!(secimi_coz("3", 2), None);
    assert_eq!(secimi_coz("0", 2), None);
    assert_eq!(secimi_coz("-1", 2), None);
    assert_eq!(secimi_coz("+", 2), None);
    assert_eq!(secimi_coz("", 2), None);
    assert_eq!(secimi_coz("1 2", 2), None);
    assert_eq!(secimi_coz("abc", 2), None);
    assert_eq!(secimi_coz("002", 2), Some(1));
    assert_eq!(secimi_coz("99999999999999999999999", 2), None);
    assert_eq!(secimi_coz("18446744073709551615", usize::MAX), Some(usize::MAX - 1));
}

#[test]
fn model_listesi() {
    let m = model_secenekleri();
    assert_eq!(m.len(), 2);
    assert_eq!(m[0].repo_id, "Qwen/Qwen2-VL-7B-Instruct");
    assert_eq!(m[1].hedef_dosya_adi, "model-00001-of-000001.safetensors");
}

#[test]
fn token_uretimi_bitis_tokeninde_durur() {
    let mut u = TokenUretimi::yeni();
    assert!(u.devam_mi());
    assert_eq!(u.son_token(), 1);
    u.ilerle(500);
    u.ilerle(7);
    assert_eq!(u.son_token(), 7);
    u.ilerle(151643);
    assert!(!u.devam_mi());
    assert_eq!(u.tokenler(), &vec![1, 500, 7]);
}

#[test]
fn token_uretimi_altmis_dort_adimda_durur() {
    let mut u = TokenUretimi::yeni();
    let mut adim = 0;
    while u.devam_mi() {
        u.ilerle(10 + adim);
        adim += 1;
    }
    assert_eq!(adim, 64);
    assert_eq!(u.tokenler().len(), 65);
    assert_eq!(u.tokenler()[0], 1);
    assert!(!u.tokenler().contains(&2));
}

fn bilesenler(yol: &str) -> YolBilesenleri {
    YolBilesenleri {
        bilesenler: std::path::Path::new(yol)
            .components()
            .map(|c| c.as_os_str().as_encoded_bytes().to_vec())
            .collect(),
    }
}

#[test]
fn yol_siralamasi_std_ile_ayni() {
    let yollar = [
        "d/b.txt",
        "d/a.txt",
        "d/sub/a.pdf",
        "d/a.txt.bak",
        "d/A.txt",
        "d/sub",
        "d/Ü.jpg",
        "d/a-b.txt",
        "d/a/b.txt",
    ];
    let kayitlar: Vec<YolBilesenleri> = yollar.iter().map(|y| bilesenler(y)).collect();
    let sira = yol_sirasi_bul(&kayitlar);
    let bizim: Vec<&str> = sira.iter().map(|&i| yollar[i]).collect();
    let mut std_sirasi: Vec<std::path::PathBuf> =
        yollar.iter().map(|y| std::path::PathBuf::from(y)).collect();
    std_sirasi.sort();
    let std_sirasi: Vec<&str> = std_sirasi.iter().map(|p| p.to_str().unwrap()).collect();
    assert_eq!(bizim, std_sirasi);
}

#[test]
fn cikti_adlari_cakismaz() {
    let mut adlar: Vec<String> = (0..12000).map(|i| cikti_adi_olustur("p", i, "md")).collect();
    adlar.sort();
    adlar.dedup();
    assert_eq!(adlar.len(), 12000);
}

#[test]
fn sayfa_numaralari_bosluksuz_ilerler() {
    let mut y = SayfaYazimi::yeni();
    assert_eq!(y.siradaki_adlar("k"), ("k_0001.md".to_string(), "k_0001.txt".to_string()));
    assert!(y.sonuc_ekle("1.md".into(), "1.txt".into(), true, true, "a".into()));
    assert!(!y.sonuc_ekle("2.md".into(), "2.txt".into(), false, true, "b (sol)".into()));
    assert_eq!(y.siradaki_adlar("k").0, "k_0002.md");
    assert!(y.sonuc_ekle("2.md".into(), "2.txt".into(), true, true, "c".into()));
    assert_eq!(y.sayac(), 3);
    let rapor = y.rapor();
    assert_eq!(rapor.basarili.len(), 4);
    assert_eq!(rapor.basarisiz, vec!["b (sol)".to_string()]);
}

#[test]
fn menu_numarasi_secenegi_secer() {
    for n in 1..30usize {
        for i in 0..n {
            assert_eq!(secimi_coz(&format!("{}\n", i + 1), n), Some(i));
        }
    }
}

const KUCUK_PDF: &[u8] = b"%PDF-1.4\x0a1 0 obj\x0a<< /Type /Catalog /Pages 2 0 R >>\x0aendobj\x0a2 0 obj\x0a<< /Type /Pages /Kids [3 0 R] /Count 1 >>\x0aendobj\x0a3 0 obj\x0a<< /Type /Page /Parent 2 0 R /MediaBox [0 0 612 792] /Contents 4 0 R /Resources << /Font << /F1 5 0 R >> >> >>\x0aendobj\x0a4 0 obj\x0a<< /Length 40 >>\x0astream\x0aBT /F1 24 Tf 72 700 Td (Hello PDF) Tj ET\x0aendstream\x0aendobj\x0a5 0 obj\x0a<< /Type /Font /Subtype /Type1 /BaseFont /Helvetica >>\x0aendobj\x0axref\x0a0 6\x0a0000000000 65535 f \x0a0000000009 00000 n \x0a0000000058 00000 n \x0a0000000115 00000 n \x0a0000000241 00000 n \x0a0000000331 00000 n \x0atrailer\x0a<< /Size 6 /Root 1 0 R >>\x0astartxref\x0a401\x0a%%EOF\x0a";

#[test]
fn pdf_metni_cikarilir_ve_temizlenir() {
    let cikan = pdf_extract::extract_text_from_mem(KUCUK_PDF).ok();
    assert!(cikan.is_some());
    let r = forge_belgesi("a.pdf", None, cikan, "\"a.pdf\"", Lang::En, false, true);
    assert!(r.contains("Hello PDF"), "{:?}", r);
    assert!(!r.contains("Extraction Error"));
}

#[test]
fn yeni_ad_hedef_uzantiyi_korur() {
    let hedef = hedef_uzanti(".J.PG");
    let mut used = Vec::new();
    let ad = serbest_ad(&vec!["kitap_3.jpg".to_string()], "kitap", 3, &mut used, &hedef);
    assert_eq!(ad, "kitap_3_1.jpg");
    assert_eq!(uzanti_bul(&ad), Some(hedef.clone()));
    assert!(destiny_dosyasi_mi(&ad, &hedef));
}
