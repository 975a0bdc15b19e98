use tallis::metin::{
    birlestirilmis, icerir_mi, karakterler, kelime_say, kirpilmis, satirlara_bol,
};
use tallis::storme::Storme;

const ORNEKLER: [&str; 12] = [
    "",
    "\n",
    "a",
    "a\n",
    "a\r\nb\r\n",
    "a\rb\n\rc\r",
    "\n\nx\n\n",
    "  iki  kelime \t",
    "\u{3000}tam\u{a0}genişlik\u{2028}",
    "one\ntwo\r\n\r\nthree",
    "\r\n",
    "x\r",
];

#[test]
fn satirlar_std_ile_ayni() {
    for s in ORNEKLER.iter() {
        let bizim: Vec<String> = satirlara_bol(&karakterler(s))
            .into_iter()
            .map(|l| l.into_iter().collect())
            .collect();
        let std: Vec<String> = s.lines().map(|l| l.to_string()).collect();
        assert_eq!(bizim, std, "{:?}", s);
    }
}

#[test]
fn kirpma_ve_kelimeler_std_ile_ayni() {
    for s in ORNEKLER.iter() {
        let k: String = kirpilmis(&karakterler(s)).into_iter().collect();
        assert_eq!(k, s.trim(), "{:?}", s);
        assert_eq!(kelime_say(&karakterler(s)), s.split_whitespace().count(), "{:?}", s);
    }
}

#[test]
fn icerme_std_ile_ayni() {
    let samanlik = ["Chapter 3", "chapter", "Bölüm Sonu", "", "Sect", "xSectionx"];
    let igneler = ["Chapter", "Bölüm", "Section", "", "x"];
    for s in samanlik.iter() {
        for p in igneler.iter() {
            assert_eq!(icerir_mi(&karakterler(s), &karakterler(p)), s.contains(p), "{} {}", s, p);
        }
    }
}

#[test]
fn birlestirme_std_ile_ayni() {
    let parcalar = vec![karakterler("a"), karakterler(""), karakterler("bc")];
    let r: String = birlestirilmis(&parcalar, &karakterler(", ")).into_iter().collect();
    assert_eq!(r, ["a", "", "bc"].join(", "));
    let bos: Vec<Vec<char>> = vec![];
    assert!(birlestirilmis(&bos, &karakterler("x")).is_empty());
}

#[test]
fn ikinci_temizlik_bir_sey_degistirmez() {
    let girdiler = [
        "Başlık\n\n 12 \nBirinci paragraf\nsürüyor.\n\n\n- 3 -\nİkinci\r\n",
        "\n\n a \n\n b \n c \n",
        "12345678\n\n9\n\n[1] not",
        "",
    ];
    for g in girdiler.iter() {
        let bir = Storme::akademik_temizle(g, false, false);
        let iki = Storme::akademik_temizle(&bir, false, false);
        assert_eq!(bir, iki, "{:?}", g);
    }
}

#[test]
fn dipnot_silmede_ikinci_temizlik_degisebilir() {
    let bir = Storme::akademik_temizle("2024 was\nfine.", false, true);
    assert_eq!(bir, "2024 was fine.");
    assert_eq!(Storme::akademik_temizle(&bir, false, true), "");
}
