use image::{DynamicImage, GenericImageView, Rgb, RgbImage};
use tallis::storme::Storme;

fn desenli(w: u32, h: u32) -> DynamicImage {
    let mut img = RgbImage::new(w, h);
    for x in 0..w {
        for y in 0..h {
            img.put_pixel(x, y, Rgb([x as u8, y as u8, (x * 7 + y) as u8]));
        }
    }
    DynamicImage::ImageRgb8(img)
}

#[test]
fn cift_genislikte_yarilar() {
    let img = desenli(6, 3);
    let (sol, sag) = Storme::sayfayi_bol(&img);
    assert_eq!(sol.dimensions(), (3, 3));
    assert_eq!(sag.dimensions(), (3, 3));
    for x in 0..6 {
        for y in 0..3 {
            let beklenen = img.get_pixel(x, y);
            if x < 3 {
                assert_eq!(sol.get_pixel(x, y), beklenen);
            } else {
                assert_eq!(sag.get_pixel(x - 3, y), beklenen);
            }
        }
    }
}

#[test]
fn tek_genislikte_son_sutun_dusur() {
    let img = desenli(5, 2);
    let (sol, sag) = Storme::sayfayi_bol(&img);
    assert_eq!(sol.dimensions(), (2, 2));
    assert_eq!(sag.dimensions(), (2, 2));
    assert_eq!(sag.get_pixel(1, 1), img.get_pixel(3, 1));
}

#[test]
fn bos_gorsel() {
    let img = desenli(1, 4);
    let (sol, sag) = Storme::sayfayi_bol(&img);
    assert_eq!(sol.dimensions(), (0, 4));
    assert_eq!(sag.dimensions(), (0, 4));
}
