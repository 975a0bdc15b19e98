//! The command-line model: the interface language with its message table, and the
//! arguments of the three commands.

use vstd::prelude::*;
use crate::metin::{karakterler, metinle_ayni_mi};

verus! {

broadcast use vstd::string::group_string_axioms;

/// The interface language.
#[derive(Copy, Clone, PartialEq, Eq, PartialOrd, Ord, Debug)]
pub enum Lang {
    Tr,
    En,
}

impl Default for Lang {
    /// Turkish is the default interface language.
    fn default() -> (r: Self)
        ensures
            r == Lang::Tr,
    {
        Lang::Tr
    }
}

/// `tr` in Turkish, `en` in English.
pub open spec fn dile_gore(dil: Lang, tr: Seq<char>, en: Seq<char>) -> Seq<char> {
    match dil {
        Lang::Tr => tr,
        Lang::En => en,
    }
}

/// The message that `anahtar` names, in `dil`; the empty text for an unknown key.
pub open spec fn ceviri(anahtar: Seq<char>, dil: Lang) -> Seq<char> {
    if anahtar == "destiny_start"@ {
        dile_gore(dil, "dosya bulundu. İşlem başlıyor..."@, "files were found. Processing is starting..."@)
    } else if anahtar == "destiny_warn"@ {
        dile_gore(dil, "Uyarı: Dosya taşınamadı:"@, "Warning: Could not move file:"@)
    } else if anahtar == "destiny_done"@ {
        dile_gore(dil, "İşlem tamamlandı: Dosya yeniden adlandırıldı."@, "Operation completed: files were renamed."@)
    } else if anahtar == "forge_model_found"@ {
        dile_gore(dil, "Bilgi: Model bulundu. İşleme alınılıyor..."@, "Info: Model found. Processing..."@)
    } else if anahtar == "forge_model_missing"@ {
        dile_gore(dil, "Bilgi: Model bulunamadı. Standart metin ayıklama modu aktif."@, "Info: Model not found. Standard text extraction mode active."@)
    } else if anahtar == "forge_scanning"@ {
        dile_gore(dil, "Forge Korpus Motoru Çalışıyor..."@, "Forge Corpus Engine Running..."@)
    } else if anahtar == "forge_done"@ {
        dile_gore(dil, "İşlem Başarıyla Tamamlandı!"@, "Operation Successfully Completed!"@)
    } else if anahtar == "quozart_scanning"@ {
        dile_gore(dil, "Belgeler Taranıyor ve İşleniyor..."@, "Scanning and Processing Documents..."@)
    } else if anahtar == "quozart_done"@ {
        dile_gore(dil, "İşlem Tamamlandı!"@, "Operation Completed!"@)
    } else if anahtar == "no_files"@ {
        dile_gore(dil, "HATA: Belirtilen dizinde uygun formatta dosya bulunamadı."@, "ERROR: No supported files found in the specified directory."@)
    } else if anahtar == "report_file"@ {
        dile_gore(dil, "Rapor Dosyası:"@, "Report File:"@)
    } else if anahtar == "model_not_found"@ {
        dile_gore(dil, "\n[!] Dikkat: 'core/models/' dizininde geçerli bir .safetensors modeli bulunamadı.\nİndirmek istediğiniz modeli seçin veya kendi özel modelinizi 'core/models/' içine atın:"@, "\n[!] Notice: No valid .safetensors model found in 'core/models/'.\nSelect a model to download, or place your custom model into 'core/models/':"@)
    } else if anahtar == "prompt_select"@ {
        dile_gore(dil, "\nSeçiminiz [1-2]: "@, "\nSelect option [1-2]: "@)
    } else if anahtar == "aborted"@ {
        dile_gore(dil, "İşlem iptal edildi: Model seçilmedi veya bulunamadı."@, "Execution aborted: No model selected or found."@)
    } else if anahtar == "downloading"@ {
        dile_gore(dil, "Hugging Face Hub üzerinden indiriliyor..."@, "Downloading from Hugging Face Hub..."@)
    } else if anahtar == "success_download"@ {
        dile_gore(dil, "Model başarıyla indirildi ve kaydedildi:"@, "Model successfully downloaded and saved to:"@)
    } else if anahtar == "venexus_init_error"@ {
        dile_gore(dil, "Venexus motoru başlatılamadı:"@, "Venexus engine failed to start:"@)
    } else if anahtar == "pdf_detected"@ {
        dile_gore(dil, "PDF dosyası algılandı:"@, "PDF file detected:"@)
    } else if anahtar == "left_page_error"@ {
        dile_gore(dil, "Sol Sayfa Okuma Hatası"@, "Left Page Read Error"@)
    } else if anahtar == "right_page_error"@ {
        dile_gore(dil, "Sağ Sayfa Okuma Hatası"@, "Right Page Read Error"@)
    } else if anahtar == "saving_markdown"@ {
        dile_gore(dil, "İşleme tamamlandı, veriler Markdown olarak kaydediliyor..."@, "Processing complete, saving data as Markdown..."@)
    } else if anahtar == "success_label"@ {
        dile_gore(dil, "Başarılı"@, "Success"@)
    } else if anahtar == "fail_label"@ {
        dile_gore(dil, "Başarısız"@, "Failed"@)
    } else if anahtar == "md_data"@ {
        dile_gore(dil, "Veri"@, "Data"@)
    } else if anahtar == "md_source"@ {
        dile_gore(dil, "Kaynak"@, "Source"@)
    } else if anahtar == "md_mode"@ {
        dile_gore(dil, "Mod"@, "Mode"@)
    } else if anahtar == "pdf_extract_error"@ {
        dile_gore(dil, "PDF Metin Çıkarma Hatası:"@, "PDF Text Extraction Error:"@)
    } else if anahtar == "image_file_pointer"@ {
        dile_gore(dil, "Görsel / Dosya İşaretçisi:"@, "Image / File Pointer:"@)
    } else if anahtar == "forge_saving_corpus"@ {
        dile_gore(dil, "İşlem tamamlandı, akademik korpus diske yazılıyor..."@, "Process completed, writing academic corpus to disk..."@)
    } else if anahtar == "forge_success_count"@ {
        dile_gore(dil, "Başarılı Çıktı Dosyası Sayısı"@, "Successful Output Files"@)
    } else if anahtar == "corpus_doc"@ {
        dile_gore(dil, "Korpus Belgesi"@, "Corpus Document"@)
    } else if anahtar == "download_failed"@ {
        dile_gore(dil, "İndirme başarısız:"@, "Download failed:"@)
    } else if anahtar == "error_tokenizer_load_failed"@ {
        dile_gore(dil, "Tokenizer yüklenemedi"@, "Failed to load tokenizer"@)
    } else if anahtar == "error_token_decode_failed"@ {
        dile_gore(dil, "Token çözme hatası"@, "Token decoding error"@)
    } else if anahtar == "error_vision_encoder_forward_failed"@ {
        dile_gore(dil, "Görsel kodlayıcı işleme hatası"@, "Vision encoder forward failed"@)
    } else if anahtar == "error_no_safetensors_found"@ {
        dile_gore(dil, "Klasörde hiçbir .safetensors dosyası bulunamadı!"@, "No .safetensors files found in the directory!"@)
    } else if anahtar == "metal_active"@ {
        dile_gore(dil, "[+] Apple Metal (MPS) Hızlandırması Aktif!"@, "[+] Apple Metal (MPS) Acceleration Active!"@)
    } else if anahtar == "cuda_active"@ {
        dile_gore(dil, "[+] NVIDIA CUDA Hızlandırması Aktif!"@, "[+] NVIDIA CUDA Acceleration Active!"@)
    } else if anahtar == "cpu_active"@ {
        dile_gore(dil, "[-] GPU bulunamadı, CPU modunda çalışıyor."@, "[-] No GPU found, running in CPU mode."@)
    } else {
        Seq::empty()
    }
}

/// The message keys that have a text.
pub open spec fn bilinen_anahtar(anahtar: Seq<char>) -> bool {
    ||| anahtar == "destiny_start"@
    ||| anahtar == "destiny_warn"@
    ||| anahtar == "destiny_done"@
    ||| anahtar == "forge_model_found"@
    ||| anahtar == "forge_model_missing"@
    ||| anahtar == "forge_scanning"@
    ||| anahtar == "forge_done"@
    ||| anahtar == "quozart_scanning"@
    ||| anahtar == "quozart_done"@
    ||| anahtar == "no_files"@
    ||| anahtar == "report_file"@
    ||| anahtar == "model_not_found"@
    ||| anahtar == "prompt_select"@
    ||| anahtar == "aborted"@
    ||| anahtar == "downloading"@
    ||| anahtar == "success_download"@
    ||| anahtar == "venexus_init_error"@
    ||| anahtar == "pdf_detected"@
    ||| anahtar == "left_page_error"@
    ||| anahtar == "right_page_error"@
    ||| anahtar == "saving_markdown"@
    ||| anahtar == "success_label"@
    ||| anahtar == "fail_label"@
    ||| anahtar == "md_data"@
    ||| anahtar == "md_source"@
    ||| anahtar == "md_mode"@
    ||| anahtar == "pdf_extract_error"@
    ||| anahtar == "image_file_pointer"@
    ||| anahtar == "forge_saving_corpus"@
    ||| anahtar == "forge_success_count"@
    ||| anahtar == "corpus_doc"@
    ||| anahtar == "download_failed"@
    ||| anahtar == "error_tokenizer_load_failed"@
    ||| anahtar == "error_token_decode_failed"@
    ||| anahtar == "error_vision_encoder_forward_failed"@
    ||| anahtar == "error_no_safetensors_found"@
    ||| anahtar == "metal_active"@
    ||| anahtar == "cuda_active"@
    ||| anahtar == "cpu_active"@
}

/// Every known message key has a non-empty text in both languages, and every other key
/// has the empty text.
pub proof fn lemma_ceviriler_dolu(anahtar: Seq<char>, dil: Lang)
    ensures
        bilinen_anahtar(anahtar) ==> ceviri(anahtar, dil).len() > 0,
        !bilinen_anahtar(anahtar) ==> ceviri(anahtar, dil).len() == 0,
{
    if bilinen_anahtar(anahtar) {
        reveal_strlit("dosya bulundu. İşlem başlıyor...");
        reveal_strlit("files were found. Processing is starting...");
        reveal_strlit("Uyarı: Dosya taşınamadı:");
        reveal_strlit("Warning: Could not move file:");
        reveal_strlit("İşlem tamamlandı: Dosya yeniden adlandırıldı.");
        reveal_strlit("Operation completed: files were renamed.");
        reveal_strlit("Bilgi: Model bulundu. İşleme alınılıyor...");
        reveal_strlit("Info: Model found. Processing...");
        reveal_strlit("Bilgi: Model bulunamadı. Standart metin ayıklama modu aktif.");
        reveal_strlit("Info: Model not found. Standard text extraction mode active.");
        reveal_strlit("Forge Korpus Motoru Çalışıyor...");
        reveal_strlit("Forge Corpus Engine Running...");
        reveal_strlit("İşlem Başarıyla Tamamlandı!");
        reveal_strlit("Operation Successfully Completed!");
        reveal_strlit("Belgeler Taranıyor ve İşleniyor...");
        reveal_strlit("Scanning and Processing Documents...");
        reveal_strlit("İşlem Tamamlandı!");
        reveal_strlit("Operation Completed!");
        reveal_strlit("HATA: Belirtilen dizinde uygun formatta dosya bulunamadı.");
        reveal_strlit("ERROR: No supported files found in the specified directory.");
        reveal_strlit("Rapor Dosyası:");
        reveal_strlit("Report File:");
        reveal_strlit("\n[!] Dikkat: 'core/models/' dizininde geçerli bir .safetensors modeli bulunamadı.\nİndirmek istediğiniz modeli seçin veya kendi özel modelinizi 'core/models/' içine atın:");
        reveal_strlit("\n[!] Notice: No valid .safetensors model found in 'core/models/'.\nSelect a model to download, or place your custom model into 'core/models/':");
        reveal_strlit("\nSeçiminiz [1-2]: ");
        reveal_strlit("\nSelect option [1-2]: ");
        reveal_strlit("İşlem iptal edildi: Model seçilmedi veya bulunamadı.");
        reveal_strlit("Execution aborted: No model selected or found.");
        reveal_strlit("Hugging Face Hub üzerinden indiriliyor...");
        reveal_strlit("Downloading from Hugging Face Hub...");
        reveal_strlit("Model başarıyla indirildi ve kaydedildi:");
        reveal_strlit("Model successfully downloaded and saved to:");
        reveal_strlit("Venexus motoru başlatılamadı:");
        reveal_strlit("Venexus engine failed to start:");
        reveal_strlit("PDF dosyası algılandı:");
        reveal_strlit("PDF file detected:");
        reveal_strlit("Sol Sayfa Okuma Hatası");
        reveal_strlit("Left Page Read Error");
        reveal_strlit("Sağ Sayfa Okuma Hatası");
        reveal_strlit("Right Page Read Error");
        reveal_strlit("İşleme tamamlandı, veriler Markdown olarak kaydediliyor...");
        reveal_strlit("Processing complete, saving data as Markdown...");
        reveal_strlit("Başarılı");
        reveal_strlit("Success");
        reveal_strlit("Başarısız");
        reveal_strlit("Failed");
        reveal_strlit("Veri");
        reveal_strlit("Data");
        reveal_strlit("Kaynak");
        reveal_strlit("Source");
        reveal_strlit("Mod");
        reveal_strlit("Mode");
        reveal_strlit("PDF Metin Çıkarma Hatası:");
        reveal_strlit("PDF Text Extraction Error:");
        reveal_strlit("Görsel / Dosya İşaretçisi:");
        reveal_strlit("Image / File Pointer:");
        reveal_strlit("İşlem tamamlandı, akademik korpus diske yazılıyor...");
        reveal_strlit("Process completed, writing academic corpus to disk...");
        reveal_strlit("Başarılı Çıktı Dosyası Sayısı");
        reveal_strlit("Successful Output Files");
        reveal_strlit("Korpus Belgesi");
        reveal_strlit("Corpus Document");
        reveal_strlit("İndirme başarısız:");
        reveal_strlit("Download failed:");
        reveal_strlit("Tokenizer yüklenemedi");
        reveal_strlit("Failed to load tokenizer");
        reveal_strlit("Token çözme hatası");
        reveal_strlit("Token decoding error");
        reveal_strlit("Görsel kodlayıcı işleme hatası");
        reveal_strlit("Vision encoder forward failed");
        reveal_strlit("Klasörde hiçbir .safetensors dosyası bulunamadı!");
        reveal_strlit("No .safetensors files found in the directory!");
        reveal_strlit("[+] Apple Metal (MPS) Hızlandırması Aktif!");
        reveal_strlit("[+] Apple Metal (MPS) Acceleration Active!");
        reveal_strlit("[+] NVIDIA CUDA Hızlandırması Aktif!");
        reveal_strlit("[+] NVIDIA CUDA Acceleration Active!");
        reveal_strlit("[-] GPU bulunamadı, CPU modunda çalışıyor.");
        reveal_strlit("[-] No GPU found, running in CPU mode.");
    }
}

/// The key and language of the message `metin`, read back from the table; for a text
/// that is no message, the empty key.
pub open spec fn ceviri_kaynagi(metin: Seq<char>) -> (Seq<char>, Lang) {
    if metin == "dosya bulundu. İşlem başlıyor..."@ {
        ("destiny_start"@, Lang::Tr)
    } else if metin == "files were found. Processing is starting..."@ {
        ("destiny_start"@, Lang::En)
    } else if metin == "Uyarı: Dosya taşınamadı:"@ {
        ("destiny_warn"@, Lang::Tr)
    } else if metin == "Warning: Could not move file:"@ {
        ("destiny_warn"@, Lang::En)
    } else if metin == "İşlem tamamlandı: Dosya yeniden adlandırıldı."@ {
        ("destiny_done"@, Lang::Tr)
    } else if metin == "Operation completed: files were renamed."@ {
        ("destiny_done"@, Lang::En)
    } else if metin == "Bilgi: Model bulundu. İşleme alınılıyor..."@ {
        ("forge_model_found"@, Lang::Tr)
    } else if metin == "Info: Model found. Processing..."@ {
        ("forge_model_found"@, Lang::En)
    } else if metin == "Bilgi: Model bulunamadı. Standart metin ayıklama modu aktif."@ {
        ("forge_model_missing"@, Lang::Tr)
    } else if metin == "Info: Model not found. Standard text extraction mode active."@ {
        ("forge_model_missing"@, Lang::En)
    } else if metin == "Forge Korpus Motoru Çalışıyor..."@ {
        ("forge_scanning"@, Lang::Tr)
    } else if metin == "Forge Corpus Engine Running..."@ {
        ("forge_scanning"@, Lang::En)
    } else if metin == "İşlem Başarıyla Tamamlandı!"@ {
        ("forge_done"@, Lang::Tr)
    } else if metin == "Operation Successfully Completed!"@ {
        ("forge_done"@, Lang::En)
    } else if metin == "Belgeler Taranıyor ve İşleniyor..."@ {
        ("quozart_scanning"@, Lang::Tr)
    } else if metin == "Scanning and Processing Documents..."@ {
        ("quozart_scanning"@, Lang::En)
    } else if metin == "İşlem Tamamlandı!"@ {
        ("quozart_done"@, Lang::Tr)
    } else if metin == "Operation Completed!"@ {
        ("quozart_done"@, Lang::En)
    } else if metin == "HATA: Belirtilen dizinde uygun formatta dosya bulunamadı."@ {
        ("no_files"@, Lang::Tr)
    } else if metin == "ERROR: No supported files found in the specified directory."@ {
        ("no_files"@, Lang::En)
    } else if metin == "Rapor Dosyası:"@ {
        ("report_file"@, Lang::Tr)
    } else if metin == "Report File:"@ {
        ("report_file"@, Lang::En)
    } else if metin == "\n[!] Dikkat: 'core/models/' dizininde geçerli bir .safetensors modeli bulunamadı.\nİndirmek istediğiniz modeli seçin veya kendi özel modelinizi 'core/models/' içine atın:"@ {
        ("model_not_found"@, Lang::Tr)
    } else if metin == "\n[!] Notice: No valid .safetensors model found in 'core/models/'.\nSelect a model to download, or place your custom model into 'core/models/':"@ {
        ("model_not_found"@, Lang::En)
    } else if metin == "\nSeçiminiz [1-2]: "@ {
        ("prompt_select"@, Lang::Tr)
    } else if metin == "\nSelect option [1-2]: "@ {
        ("prompt_select"@, Lang::En)
    } else if metin == "İşlem iptal edildi: Model seçilmedi veya bulunamadı."@ {
        ("aborted"@, Lang::Tr)
    } else if metin == "Execution aborted: No model selected or found."@ {
        ("aborted"@, Lang::En)
    } else if metin == "Hugging Face Hub üzerinden indiriliyor..."@ {
        ("downloading"@, Lang::Tr)
    } else if metin == "Downloading from Hugging Face Hub..."@ {
        ("downloading"@, Lang::En)
    } else if metin == "Model başarıyla indirildi ve kaydedildi:"@ {
        ("success_download"@, Lang::Tr)
    } else if metin == "Model successfully downloaded and saved to:"@ {
        ("success_download"@, Lang::En)
    } else if metin == "Venexus motoru başlatılamadı:"@ {
        ("venexus_init_error"@, Lang::Tr)
    } else if metin == "Venexus engine failed to start:"@ {
        ("venexus_init_error"@, Lang::En)
    } else if metin == "PDF dosyası algılandı:"@ {
        ("pdf_detected"@, Lang::Tr)
    } else if metin == "PDF file detected:"@ {
        ("pdf_detected"@, Lang::En)
    } else if metin == "Sol Sayfa Okuma Hatası"@ {
        ("left_page_error"@, Lang::Tr)
    } else if metin == "Left Page Read Error"@ {
        ("left_page_error"@, Lang::En)
    } else if metin == "Sağ Sayfa Okuma Hatası"@ {
        ("right_page_error"@, Lang::Tr)
    } else if metin == "Right Page Read Error"@ {
        ("right_page_error"@, Lang::En)
    } else if metin == "İşleme tamamlandı, veriler Markdown olarak kaydediliyor..."@ {
        ("saving_markdown"@, Lang::Tr)
    } else if metin == "Processing complete, saving data as Markdown..."@ {
        ("saving_markdown"@, Lang::En)
    } else if metin == "Başarılı"@ {
        ("success_label"@, Lang::Tr)
    } else if metin == "Success"@ {
        ("success_label"@, Lang::En)
    } else if metin == "Başarısız"@ {
        ("fail_label"@, Lang::Tr)
    } else if metin == "Failed"@ {
        ("fail_label"@, Lang::En)
    } else if metin == "Veri"@ {
        ("md_data"@, Lang::Tr)
    } else if metin == "Data"@ {
        ("md_data"@, Lang::En)
    } else if metin == "Kaynak"@ {
        ("md_source"@, Lang::Tr)
    } else if metin == "Source"@ {
        ("md_source"@, Lang::En)
    } else if metin == "Mod"@ {
        ("md_mode"@, Lang::Tr)
    } else if metin == "Mode"@ {
        ("md_mode"@, Lang::En)
    } else if metin == "PDF Metin Çıkarma Hatası:"@ {
        ("pdf_extract_error"@, Lang::Tr)
    } else if metin == "PDF Text Extraction Error:"@ {
        ("pdf_extract_error"@, Lang::En)
    } else if metin == "Görsel / Dosya İşaretçisi:"@ {
        ("image_file_pointer"@, Lang::Tr)
    } else if metin == "Image / File Pointer:"@ {
        ("image_file_pointer"@, Lang::En)
    } else if metin == "İşlem tamamlandı, akademik korpus diske yazılıyor..."@ {
        ("forge_saving_corpus"@, Lang::Tr)
    } else if metin == "Process completed, writing academic corpus to disk..."@ {
        ("forge_saving_corpus"@, Lang::En)
    } else if metin == "Başarılı Çıktı Dosyası Sayısı"@ {
        ("forge_success_count"@, Lang::Tr)
    } else if metin == "Successful Output Files"@ {
        ("forge_success_count"@, Lang::En)
    } else if metin == "Korpus Belgesi"@ {
        ("corpus_doc"@, Lang::Tr)
    } else if metin == "Corpus Document"@ {
        ("corpus_doc"@, Lang::En)
    } else if metin == "İndirme başarısız:"@ {
        ("download_failed"@, Lang::Tr)
    } else if metin == "Download failed:"@ {
        ("download_failed"@, Lang::En)
    } else if metin == "Tokenizer yüklenemedi"@ {
        ("error_tokenizer_load_failed"@, Lang::Tr)
    } else if metin == "Failed to load tokenizer"@ {
        ("error_tokenizer_load_failed"@, Lang::En)
    } else if metin == "Token çözme hatası"@ {
        ("error_token_decode_failed"@, Lang::Tr)
    } else if metin == "Token decoding error"@ {
        ("error_token_decode_failed"@, Lang::En)
    } else if metin == "Görsel kodlayıcı işleme hatası"@ {
        ("error_vision_encoder_forward_failed"@, Lang::Tr)
    } else if metin == "Vision encoder forward failed"@ {
        ("error_vision_encoder_forward_failed"@, Lang::En)
    } else if metin == "Klasörde hiçbir .safetensors dosyası bulunamadı!"@ {
        ("error_no_safetensors_found"@, Lang::Tr)
    } else if metin == "No .safetensors files found in the directory!"@ {
        ("error_no_safetensors_found"@, Lang::En)
    } else if metin == "[+] Apple Metal (MPS) Hızlandırması Aktif!"@ {
        ("metal_active"@, Lang::Tr)
    } else if metin == "[+] Apple Metal (MPS) Acceleration Active!"@ {
        ("metal_active"@, Lang::En)
    } else if metin == "[+] NVIDIA CUDA Hızlandırması Aktif!"@ {
        ("cuda_active"@, Lang::Tr)
    } else if metin == "[+] NVIDIA CUDA Acceleration Active!"@ {
        ("cuda_active"@, Lang::En)
    } else if metin == "[-] GPU bulunamadı, CPU modunda çalışıyor."@ {
        ("cpu_active"@, Lang::Tr)
    } else if metin == "[-] No GPU found, running in CPU mode."@ {
        ("cpu_active"@, Lang::En)
    } else {
        (Seq::empty(), Lang::Tr)
    }
}

/// Every known message is read back to its key and language. The literals are told apart
/// by their lengths, and those of equal length by one character where they differ.
proof fn lemma_ceviri_kaynagi(anahtar: Seq<char>, dil: Lang)
    requires
        bilinen_anahtar(anahtar),
    ensures
        ceviri_kaynagi(ceviri(anahtar, dil)) == (anahtar, dil),
{
    reveal_strlit("destiny_start");
    reveal_strlit("destiny_warn");
    reveal_strlit("destiny_done");
    reveal_strlit("forge_model_found");
    reveal_strlit("forge_model_missing");
    reveal_strlit("forge_scanning");
    reveal_strlit("forge_done");
    reveal_strlit("quozart_scanning");
    reveal_strlit("quozart_done");
    reveal_strlit("no_files");
    reveal_strlit("report_file");
    reveal_strlit("model_not_found");
    reveal_strlit("prompt_select");
    reveal_strlit("aborted");
    reveal_strlit("downloading");
    reveal_strlit("success_download");
    reveal_strlit("venexus_init_error");
    reveal_strlit("pdf_detected");
    reveal_strlit("left_page_error");
    reveal_strlit("right_page_error");
    reveal_strlit("saving_markdown");
    reveal_strlit("success_label");
    reveal_strlit("fail_label");
    reveal_strlit("md_data");
    reveal_strlit("md_source");
    reveal_strlit("md_mode");
    reveal_strlit("pdf_extract_error");
    reveal_strlit("image_file_pointer");
    reveal_strlit("forge_saving_corpus");
    reveal_strlit("forge_success_count");
    reveal_strlit("corpus_doc");
    reveal_strlit("download_failed");
    reveal_strlit("error_tokenizer_load_failed");
    reveal_strlit("error_token_decode_failed");
    reveal_strlit("error_vision_encoder_forward_failed");
    reveal_strlit("error_no_safetensors_found");
    reveal_strlit("metal_active");
    reveal_strlit("cuda_active");
    reveal_strlit("cpu_active");
    reveal_strlit("dosya bulundu. İşlem başlıyor...");
    reveal_strlit("files were found. Processing is starting...");
    reveal_strlit("Uyarı: Dosya taşınamadı:");
    reveal_strlit("Warning: Could not move file:");
    reveal_strlit("İşlem tamamlandı: Dosya yeniden adlandırıldı.");
    reveal_strlit("Operation completed: files were renamed.");
    reveal_strlit("Bilgi: Model bulundu. İşleme alınılıyor...");
    reveal_strlit("Info: Model found. Processing...");
    reveal_strlit("Bilgi: Model bulunamadı. Standart metin ayıklama modu aktif.");
    reveal_strlit("Info: Model not found. Standard text extraction mode active.");
    reveal_strlit("Forge Korpus Motoru Çalışıyor...");
    reveal_strlit("Forge Corpus Engine Running...");
    reveal_strlit("İşlem Başarıyla Tamamlandı!");
    reveal_strlit("Operation Successfully Completed!");
    reveal_strlit("Belgeler Taranıyor ve İşleniyor...");
    reveal_strlit("Scanning and Processing Documents...");
    reveal_strlit("İşlem Tamamlandı!");
    reveal_strlit("Operation Completed!");
    reveal_strlit("HATA: Belirtilen dizinde uygun formatta dosya bulunamadı.");
    reveal_strlit("ERROR: No supported files found in the specified directory.");
    reveal_strlit("Rapor Dosyası:");
    reveal_strlit("Report File:");
    reveal_strlit("\n[!] Dikkat: 'core/models/' dizininde geçerli bir .safetensors modeli bulunamadı.\nİndirmek istediğiniz modeli seçin veya kendi özel modelinizi 'core/models/' içine atın:");
    reveal_strlit("\n[!] Notice: No valid .safetensors model found in 'core/models/'.\nSelect a model to download, or place your custom model into 'core/models/':");
    reveal_strlit("\nSeçiminiz [1-2]: ");
    reveal_strlit("\nSelect option [1-2]: ");
    reveal_strlit("İşlem iptal edildi: Model seçilmedi veya bulunamadı.");
    reveal_strlit("Execution aborted: No model selected or found.");
    reveal_strlit("Hugging Face Hub üzerinden indiriliyor...");
    reveal_strlit("Downloading from Hugging Face Hub...");
    reveal_strlit("Model başarıyla indirildi ve kaydedildi:");
    reveal_strlit("Model successfully downloaded and saved to:");
    reveal_strlit("Venexus motoru başlatılamadı:");
    reveal_strlit("Venexus engine failed to start:");
    reveal_strlit("PDF dosyası algılandı:");
    reveal_strlit("PDF file detected:");
    reveal_strlit("Sol Sayfa Okuma Hatası");
    reveal_strlit("Left Page Read Error");
    reveal_strlit("Sağ Sayfa Okuma Hatası");
    reveal_strlit("Right Page Read Error");
    reveal_strlit("İşleme tamamlandı, veriler Markdown olarak kaydediliyor...");
    reveal_strlit("Processing complete, saving data as Markdown...");
    reveal_strlit("Başarılı");
    reveal_strlit("Success");
    reveal_strlit("Başarısız");
    reveal_strlit("Failed");
    reveal_strlit("Veri");
    reveal_strlit("Data");
    reveal_strlit("Kaynak");
    reveal_strlit("Source");
    reveal_strlit("Mod");
    reveal_strlit("Mode");
    reveal_strlit("PDF Metin Çıkarma Hatası:");
    reveal_strlit("PDF Text Extraction Error:");
    reveal_strlit("Görsel / Dosya İşaretçisi:");
    reveal_strlit("Image / File Pointer:");
    reveal_strlit("İşlem tamamlandı, akademik korpus diske yazılıyor...");
    reveal_strlit("Process completed, writing academic corpus to disk...");
    reveal_strlit("Başarılı Çıktı Dosyası Sayısı");
    reveal_strlit("Successful Output Files");
    reveal_strlit("Korpus Belgesi");
    reveal_strlit("Corpus Document");
    reveal_strlit("İndirme başarısız:");
    reveal_strlit("Download failed:");
    reveal_strlit("Tokenizer yüklenemedi");
    reveal_strlit("Failed to load tokenizer");
    reveal_strlit("Token çözme hatası");
    reveal_strlit("Token decoding error");
    reveal_strlit("Görsel kodlayıcı işleme hatası");
    reveal_strlit("Vision encoder forward failed");
    reveal_strlit("Klasörde hiçbir .safetensors dosyası bulunamadı!");
    reveal_strlit("No .safetensors files found in the directory!");
    reveal_strlit("[+] Apple Metal (MPS) Hızlandırması Aktif!");
    reveal_strlit("[+] Apple Metal (MPS) Acceleration Active!");
    reveal_strlit("[+] NVIDIA CUDA Hızlandırması Aktif!");
    reveal_strlit("[+] NVIDIA CUDA Acceleration Active!");
    reveal_strlit("[-] GPU bulunamadı, CPU modunda çalışıyor.");
    reveal_strlit("[-] No GPU found, running in CPU mode.");
    // keys
    assert("destiny_start"@.len() == 13);
    assert("destiny_warn"@.len() == 12);
    assert("destiny_done"@.len() == 12);
    assert("forge_model_found"@.len() == 17);
    assert("forge_model_missing"@.len() == 19);
    assert("forge_scanning"@.len() == 14);
    assert("forge_done"@.len() == 10);
    assert("quozart_scanning"@.len() == 16);
    assert("quozart_done"@.len() == 12);
    assert("no_files"@.len() == 8);
    assert("report_file"@.len() == 11);
    assert("model_not_found"@.len() == 15);
    assert("prompt_select"@.len() == 13);
    assert("aborted"@.len() == 7);
    assert("downloading"@.len() == 11);
    assert("success_download"@.len() == 16);
    assert("venexus_init_error"@.len() == 18);
    assert("pdf_detected"@.len() == 12);
    assert("left_page_error"@.len() == 15);
    assert("right_page_error"@.len() == 16);
    assert("saving_markdown"@.len() == 15);
    assert("success_label"@.len() == 13);
    assert("fail_label"@.len() == 10);
    assert("md_data"@.len() == 7);
    assert("md_source"@.len() == 9);
    assert("md_mode"@.len() == 7);
    assert("pdf_extract_error"@.len() == 17);
    assert("image_file_pointer"@.len() == 18);
    assert("forge_saving_corpus"@.len() == 19);
    assert("forge_success_count"@.len() == 19);
    assert("corpus_doc"@.len() == 10);
    assert("download_failed"@.len() == 15);
    assert("error_tokenizer_load_failed"@.len() == 27);
    assert("error_token_decode_failed"@.len() == 25);
    assert("error_vision_encoder_forward_failed"@.len() == 35);
    assert("error_no_safetensors_found"@.len() == 26);
    assert("metal_active"@.len() == 12);
    assert("cuda_active"@.len() == 11);
    assert("cpu_active"@.len() == 10);
    assert("destiny_start"@[0] != "prompt_select"@[0]);
    assert("destiny_start"@[0] != "success_label"@[0]);
    assert("prompt_select"@[0] != "success_label"@[0]);
    assert("destiny_warn"@[8] != "destiny_done"@[8]);
    assert("destiny_warn"@[0] != "quozart_done"@[0]);
    assert("destiny_warn"@[0] != "pdf_detected"@[0]);
    assert("destiny_warn"@[0] != "metal_active"@[0]);
    assert("destiny_done"@[0] != "quozart_done"@[0]);
    assert("destiny_done"@[0] != "pdf_detected"@[0]);
    assert("destiny_done"@[0] != "metal_active"@[0]);
    assert("quozart_done"@[0] != "pdf_detected"@[0]);
    assert("quozart_done"@[0] != "metal_active"@[0]);
    assert("pdf_detected"@[0] != "metal_active"@[0]);
    assert("forge_model_found"@[0] != "pdf_extract_error"@[0]);
    assert("forge_model_missing"@[6] != "forge_saving_corpus"@[6]);
    assert("forge_model_missing"@[6] != "forge_success_count"@[6]);
    assert("forge_saving_corpus"@[7] != "forge_success_count"@[7]);
    assert("forge_done"@[1] != "fail_label"@[1]);
    assert("forge_done"@[0] != "corpus_doc"@[0]);
    assert("forge_done"@[0] != "cpu_active"@[0]);
    assert("fail_label"@[0] != "corpus_doc"@[0]);
    assert("fail_label"@[0] != "cpu_active"@[0]);
    assert("corpus_doc"@[1] != "cpu_active"@[1]);
    assert("quozart_scanning"@[0] != "success_download"@[0]);
    assert("quozart_scanning"@[0] != "right_page_error"@[0]);
    assert("success_download"@[0] != "right_page_error"@[0]);
    assert("report_file"@[0] != "downloading"@[0]);
    assert("report_file"@[0] != "cuda_active"@[0]);
    assert("downloading"@[0] != "cuda_active"@[0]);
    assert("model_not_found"@[0] != "left_page_error"@[0]);
    assert("model_not_found"@[0] != "saving_markdown"@[0]);
    assert("model_not_found"@[0] != "download_failed"@[0]);
    assert("left_page_error"@[0] != "saving_markdown"@[0]);
    assert("left_page_error"@[0] != "download_failed"@[0]);
    assert("saving_markdown"@[0] != "download_failed"@[0]);
    assert("aborted"@[0] != "md_data"@[0]);
    assert("aborted"@[0] != "md_mode"@[0]);
    assert("md_data"@[3] != "md_mode"@[3]);
    assert("venexus_init_error"@[0] != "image_file_pointer"@[0]);
    // messages
    assert("dosya bulundu. İşlem başlıyor..."@.len() == 32);
    assert("files were found. Processing is starting..."@.len() == 43);
    assert("Uyarı: Dosya taşınamadı:"@.len() == 24);
    assert("Warning: Could not move file:"@.len() == 29);
    assert("İşlem tamamlandı: Dosya yeniden adlandırıldı."@.len() == 45);
    assert("Operation completed: files were renamed."@.len() == 40);
    assert("Bilgi: Model bulundu. İşleme alınılıyor..."@.len() == 42);
    assert("Info: Model found. Processing..."@.len() == 32);
    assert("Bilgi: Model bulunamadı. Standart metin ayıklama modu aktif."@.len() == 60);
    assert("Info: Model not found. Standard text extraction mode active."@.len() == 60);
    assert("Forge Korpus Motoru Çalışıyor..."@.len() == 32);
    assert("Forge Corpus Engine Running..."@.len() == 30);
    assert("İşlem Başarıyla Tamamlandı!"@.len() == 27);
    assert("Operation Successfully Completed!"@.len() == 33);
    assert("Belgeler Taranıyor ve İşleniyor..."@.len() == 34);
    assert("Scanning and Processing Documents..."@.len() == 36);
    assert("İşlem Tamamlandı!"@.len() == 17);
    assert("Operation Completed!"@.len() == 20);
    assert("HATA: Belirtilen dizinde uygun formatta dosya bulunamadı."@.len() == 57);
    assert("ERROR: No supported files found in the specified directory."@.len() == 59);
    assert("Rapor Dosyası:"@.len() == 14);
    assert("Report File:"@.len() == 12);
    assert("\n[!] Dikkat: 'core/models/' dizininde geçerli bir .safetensors modeli bulunamadı.\nİndirmek istediğiniz modeli seçin veya kendi özel modelinizi 'core/models/' içine atın:"@.len() == 169);
    assert("\n[!] Notice: No valid .safetensors model found in 'core/models/'.\nSelect a model to download, or place your custom model into 'core/models/':"@.len() == 141);
    assert("\nSeçiminiz [1-2]: "@.len() == 18);
    assert("\nSelect option [1-2]: "@.len() == 22);
    assert("İşlem iptal edildi: Model seçilmedi veya bulunamadı."@.len() == 52);
    assert("Execution aborted: No model selected or found."@.len() == 46);
    assert("Hugging Face Hub üzerinden indiriliyor..."@.len() == 41);
    assert("Downloading from Hugging Face Hub..."@.len() == 36);
    assert("Model başarıyla indirildi ve kaydedildi:"@.len() == 40);
    assert("Model successfully downloaded and saved to:"@.len() == 43);
    assert("Venexus motoru başlatılamadı:"@.len() == 29);
    assert("Venexus engine failed to start:"@.len() == 31);
    assert("PDF dosyası algılandı:"@.len() == 22);
    assert("PDF file detected:"@.len() == 18);
    assert("Sol Sayfa Okuma Hatası"@.len() == 22);
    assert("Left Page Read Error"@.len() == 20);
    assert("Sağ Sayfa Okuma Hatası"@.len() == 22);
    assert("Right Page Read Error"@.len() == 21);
    assert("İşleme tamamlandı, veriler Markdown olarak kaydediliyor..."@.len() == 58);
    assert("Processing complete, saving data as Markdown..."@.len() == 47);
    assert("Başarılı"@.len() == 8);
    assert("Success"@.len() == 7);
    assert("Başarısız"@.len() == 9);
    assert("Failed"@.len() == 6);
    assert("Veri"@.len() == 4);
    assert("Data"@.len() == 4);
    assert("Kaynak"@.len() == 6);
    assert("Source"@.len() == 6);
    assert("Mod"@.len() == 3);
    assert("Mode"@.len() == 4);
    assert("PDF Metin Çıkarma Hatası:"@.len() == 25);
    assert("PDF Text Extraction Error:"@.len() == 26);
    assert("Görsel / Dosya İşaretçisi:"@.len() == 26);
    assert("Image / File Pointer:"@.len() == 21);
    assert("İşlem tamamlandı, akademik korpus diske yazılıyor..."@.len() == 52);
    assert("Process completed, writing academic corpus to disk..."@.len() == 53);
    assert("Başarılı Çıktı Dosyası Sayısı"@.len() == 29);
    assert("Successful Output Files"@.len() == 23);
    assert("Korpus Belgesi"@.len() == 14);
    assert("Corpus Document"@.len() == 15);
    assert("İndirme başarısız:"@.len() == 18);
    assert("Download failed:"@.len() == 16);
    assert("Tokenizer yüklenemedi"@.len() == 21);
    assert("Failed to load tokenizer"@.len() == 24);
    assert("Token çözme hatası"@.len() == 18);
    assert("Token decoding error"@.len() == 20);
    assert("Görsel kodlayıcı işleme hatası"@.len() == 30);
    assert("Vision encoder forward failed"@.len() == 29);
    assert("Klasörde hiçbir .safetensors dosyası bulunamadı!"@.len() == 48);
    assert("No .safetensors files found in the directory!"@.len() == 45);
    assert("[+] Apple Metal (MPS) Hızlandırması Aktif!"@.len() == 42);
    assert("[+] Apple Metal (MPS) Acceleration Active!"@.len() == 42);
    assert("[+] NVIDIA CUDA Hızlandırması Aktif!"@.len() == 36);
    assert("[+] NVIDIA CUDA Acceleration Active!"@.len() == 36);
    assert("[-] GPU bulunamadı, CPU modunda çalışıyor."@.len() == 42);
    assert("[-] No GPU found, running in CPU mode."@.len() == 38);
    assert("dosya bulundu. İşlem başlıyor..."@[0] != "Info: Model found. Processing..."@[0]);
    assert("dosya bulundu. İşlem başlıyor..."@[0] != "Forge Korpus Motoru Çalışıyor..."@[0]);
    assert("Info: Model found. Processing..."@[0] != "Forge Korpus Motoru Çalışıyor..."@[0]);
    assert("files were found. Processing is starting..."@[0] != "Model successfully downloaded and saved to:"@[0]);
    assert("Uyarı: Dosya taşınamadı:"@[0] != "Failed to load tokenizer"@[0]);
    assert("Warning: Could not move file:"@[0] != "Venexus motoru başlatılamadı:"@[0]);
    assert("Warning: Could not move file:"@[0] != "Başarılı Çıktı Dosyası Sayısı"@[0]);
    assert("Warning: Could not move file:"@[0] != "Vision encoder forward failed"@[0]);
    assert("Venexus motoru başlatılamadı:"@[0] != "Başarılı Çıktı Dosyası Sayısı"@[0]);
    assert("Venexus motoru başlatılamadı:"@[1] != "Vision encoder forward failed"@[1]);
    assert("Başarılı Çıktı Dosyası Sayısı"@[0] != "Vision encoder forward failed"@[0]);
    assert("İşlem tamamlandı: Dosya yeniden adlandırıldı."@[0] != "No .safetensors files found in the directory!"@[0]);
    assert("Operation completed: files were renamed."@[0] != "Model başarıyla indirildi ve kaydedildi:"@[0]);
    assert("Bilgi: Model bulundu. İşleme alınılıyor..."@[0] != "[+] Apple Metal (MPS) Hızlandırması Aktif!"@[0]);
    assert("Bilgi: Model bulundu. İşleme alınılıyor..."@[0] != "[+] Apple Metal (MPS) Acceleration Active!"@[0]);
    assert("Bilgi: Model bulundu. İşleme alınılıyor..."@[0] != "[-] GPU bulunamadı, CPU modunda çalışıyor."@[0]);
    assert("[+] Apple Metal (MPS) Hızlandırması Aktif!"@[22] != "[+] Apple Metal (MPS) Acceleration Active!"@[22]);
    assert("[+] Apple Metal (MPS) Hızlandırması Aktif!"@[1] != "[-] GPU bulunamadı, CPU modunda çalışıyor."@[1]);
    assert("[+] Apple Metal (MPS) Acceleration Active!"@[1] != "[-] GPU bulunamadı, CPU modunda çalışıyor."@[1]);
    assert("Bilgi: Model bulunamadı. Standart metin ayıklama modu aktif."@[0] != "Info: Model not found. Standard text extraction mode active."@[0]);
    assert("Forge Corpus Engine Running..."@[0] != "Görsel kodlayıcı işleme hatası"@[0]);
    assert("Scanning and Processing Documents..."@[0] != "Downloading from Hugging Face Hub..."@[0]);
    assert("Scanning and Processing Documents..."@[0] != "[+] NVIDIA CUDA Hızlandırması Aktif!"@[0]);
    assert("Scanning and Processing Documents..."@[0] != "[+] NVIDIA CUDA Acceleration Active!"@[0]);
    assert("Downloading from Hugging Face Hub..."@[0] != "[+] NVIDIA CUDA Hızlandırması Aktif!"@[0]);
    assert("Downloading from Hugging Face Hub..."@[0] != "[+] NVIDIA CUDA Acceleration Active!"@[0]);
    assert("[+] NVIDIA CUDA Hızlandırması Aktif!"@[16] != "[+] NVIDIA CUDA Acceleration Active!"@[16]);
    assert("Operation Completed!"@[0] != "Left Page Read Error"@[0]);
    assert("Operation Completed!"@[0] != "Token decoding error"@[0]);
    assert("Left Page Read Error"@[0] != "Token decoding error"@[0]);
    assert("Rapor Dosyası:"@[0] != "Korpus Belgesi"@[0]);
    assert("\nSeçiminiz [1-2]: "@[0] != "PDF file detected:"@[0]);
    assert("\nSeçiminiz [1-2]: "@[0] != "İndirme başarısız:"@[0]);
    assert("\nSeçiminiz [1-2]: "@[0] != "Token çözme hatası"@[0]);
    assert("PDF file detected:"@[0] != "İndirme başarısız:"@[0]);
    assert("PDF file detected:"@[0] != "Token çözme hatası"@[0]);
    assert("İndirme başarısız:"@[0] != "Token çözme hatası"@[0]);
    assert("\nSelect option [1-2]: "@[0] != "PDF dosyası algılandı:"@[0]);
    assert("\nSelect option [1-2]: "@[0] != "Sol Sayfa Okuma Hatası"@[0]);
    assert("\nSelect option [1-2]: "@[0] != "Sağ Sayfa Okuma Hatası"@[0]);
    assert("PDF dosyası algılandı:"@[0] != "Sol Sayfa Okuma Hatası"@[0]);
    assert("PDF dosyası algılandı:"@[0] != "Sağ Sayfa Okuma Hatası"@[0]);
    assert("Sol Sayfa Okuma Hatası"@[1] != "Sağ Sayfa Okuma Hatası"@[1]);
    assert("İşlem iptal edildi: Model seçilmedi veya bulunamadı."@[6] != "İşlem tamamlandı, akademik korpus diske yazılıyor..."@[6]);
    assert("Right Page Read Error"@[0] != "Image / File Pointer:"@[0]);
    assert("Right Page Read Error"@[0] != "Tokenizer yüklenemedi"@[0]);
    assert("Image / File Pointer:"@[0] != "Tokenizer yüklenemedi"@[0]);
    assert("Failed"@[0] != "Kaynak"@[0]);
    assert("Failed"@[0] != "Source"@[0]);
    assert("Kaynak"@[0] != "Source"@[0]);
    assert("Veri"@[0] != "Data"@[0]);
    assert("Veri"@[0] != "Mode"@[0]);
    assert("Data"@[0] != "Mode"@[0]);
    assert("PDF Text Extraction Error:"@[0] != "Görsel / Dosya İşaretçisi:"@[0]);

}

/// No two messages of the table are the same text: two known keys, or one key in the two
/// languages, always give different texts.
pub proof fn lemma_ceviriler_farkli(k1: Seq<char>, l1: Lang, k2: Seq<char>, l2: Lang)
    requires
        bilinen_anahtar(k1),
        bilinen_anahtar(k2),
        k1 != k2 || l1 != l2,
    ensures
        ceviri(k1, l1) != ceviri(k2, l2),
{
    lemma_ceviri_kaynagi(k1, l1);
    lemma_ceviri_kaynagi(k2, l2);
}

/// `tr` in Turkish, `en` in English.
fn dile_gore_sec(dil: Lang, tr: &'static str, en: &'static str) -> (r: &'static str)
    ensures
        r@ == dile_gore(dil, tr@, en@),
{
    match dil {
        Lang::Tr => tr,
        Lang::En => en,
    }
}

impl Lang {
    /// The interface message named `key`, in this language; `""` for an unknown key.
    pub fn t(&self, key: &str) -> (r: &'static str)
        ensures
            r@ == ceviri(key@, *self),
    {
        let k = karakterler(key);
        if metinle_ayni_mi(&k, "destiny_start") {
            return dile_gore_sec(*self, "dosya bulundu. İşlem başlıyor...", "files were found. Processing is starting...");
        }
        if metinle_ayni_mi(&k, "destiny_warn") {
            return dile_gore_sec(*self, "Uyarı: Dosya taşınamadı:", "Warning: Could not move file:");
        }
        if metinle_ayni_mi(&k, "destiny_done") {
            return dile_gore_sec(*self, "İşlem tamamlandı: Dosya yeniden adlandırıldı.", "Operation completed: files were renamed.");
        }
        if metinle_ayni_mi(&k, "forge_model_found") {
            return dile_gore_sec(*self, "Bilgi: Model bulundu. İşleme alınılıyor...", "Info: Model found. Processing...");
        }
        if metinle_ayni_mi(&k, "forge_model_missing") {
            return dile_gore_sec(*self, "Bilgi: Model bulunamadı. Standart metin ayıklama modu aktif.", "Info: Model not found. Standard text extraction mode active.");
        }
        if metinle_ayni_mi(&k, "forge_scanning") {
            return dile_gore_sec(*self, "Forge Korpus Motoru Çalışıyor...", "Forge Corpus Engine Running...");
        }
        if metinle_ayni_mi(&k, "forge_done") {
            return dile_gore_sec(*self, "İşlem Başarıyla Tamamlandı!", "Operation Successfully Completed!");
        }
        if metinle_ayni_mi(&k, "quozart_scanning") {
            return dile_gore_sec(*self, "Belgeler Taranıyor ve İşleniyor...", "Scanning and Processing Documents...");
        }
        if metinle_ayni_mi(&k, "quozart_done") {
            return dile_gore_sec(*self, "İşlem Tamamlandı!", "Operation Completed!");
        }
        if metinle_ayni_mi(&k, "no_files") {
            return dile_gore_sec(*self, "HATA: Belirtilen dizinde uygun formatta dosya bulunamadı.", "ERROR: No supported files found in the specified directory.");
        }
        if metinle_ayni_mi(&k, "report_file") {
            return dile_gore_sec(*self, "Rapor Dosyası:", "Report File:");
        }
        if metinle_ayni_mi(&k, "model_not_found") {
            return dile_gore_sec(*self, "\n[!] Dikkat: 'core/models/' dizininde geçerli bir .safetensors modeli bulunamadı.\nİndirmek istediğiniz modeli seçin veya kendi özel modelinizi 'core/models/' içine atın:", "\n[!] Notice: No valid .safetensors model found in 'core/models/'.\nSelect a model to download, or place your custom model into 'core/models/':");
        }
        if metinle_ayni_mi(&k, "prompt_select") {
            return dile_gore_sec(*self, "\nSeçiminiz [1-2]: ", "\nSelect option [1-2]: ");
        }
        if metinle_ayni_mi(&k, "aborted") {
            return dile_gore_sec(*self, "İşlem iptal edildi: Model seçilmedi veya bulunamadı.", "Execution aborted: No model selected or found.");
        }
        if metinle_ayni_mi(&k, "downloading") {
            return dile_gore_sec(*self, "Hugging Face Hub üzerinden indiriliyor...", "Downloading from Hugging Face Hub...");
        }
        if metinle_ayni_mi(&k, "success_download") {
            return dile_gore_sec(*self, "Model başarıyla indirildi ve kaydedildi:", "Model successfully downloaded and saved to:");
        }
        if metinle_ayni_mi(&k, "venexus_init_error") {
            return dile_gore_sec(*self, "Venexus motoru başlatılamadı:", "Venexus engine failed to start:");
        }
        if metinle_ayni_mi(&k, "pdf_detected") {
            return dile_gore_sec(*self, "PDF dosyası algılandı:", "PDF file detected:");
        }
        if metinle_ayni_mi(&k, "left_page_error") {
            return dile_gore_sec(*self, "Sol Sayfa Okuma Hatası", "Left Page Read Error");
        }
        if metinle_ayni_mi(&k, "right_page_error") {
            return dile_gore_sec(*self, "Sağ Sayfa Okuma Hatası", "Right Page Read Error");
        }
        if metinle_ayni_mi(&k, "saving_markdown") {
            return dile_gore_sec(*self, "İşleme tamamlandı, veriler Markdown olarak kaydediliyor...", "Processing complete, saving data as Markdown...");
        }
        if metinle_ayni_mi(&k, "success_label") {
            return dile_gore_sec(*self, "Başarılı", "Success");
        }
        if metinle_ayni_mi(&k, "fail_label") {
            return dile_gore_sec(*self, "Başarısız", "Failed");
        }
        if metinle_ayni_mi(&k, "md_data") {
            return dile_gore_sec(*self, "Veri", "Data");
        }
        if metinle_ayni_mi(&k, "md_source") {
            return dile_gore_sec(*self, "Kaynak", "Source");
        }
        if metinle_ayni_mi(&k, "md_mode") {
            return dile_gore_sec(*self, "Mod", "Mode");
        }
        if metinle_ayni_mi(&k, "pdf_extract_error") {
            return dile_gore_sec(*self, "PDF Metin Çıkarma Hatası:", "PDF Text Extraction Error:");
        }
        if metinle_ayni_mi(&k, "image_file_pointer") {
            return dile_gore_sec(*self, "Görsel / Dosya İşaretçisi:", "Image / File Pointer:");
        }
        if metinle_ayni_mi(&k, "forge_saving_corpus") {
            return dile_gore_sec(*self, "İşlem tamamlandı, akademik korpus diske yazılıyor...", "Process completed, writing academic corpus to disk...");
        }
        if metinle_ayni_mi(&k, "forge_success_count") {
            return dile_gore_sec(*self, "Başarılı Çıktı Dosyası Sayısı", "Successful Output Files");
        }
        if metinle_ayni_mi(&k, "corpus_doc") {
            return dile_gore_sec(*self, "Korpus Belgesi", "Corpus Document");
        }
        if metinle_ayni_mi(&k, "download_failed") {
            return dile_gore_sec(*self, "İndirme başarısız:", "Download failed:");
        }
        if metinle_ayni_mi(&k, "error_tokenizer_load_failed") {
            return dile_gore_sec(*self, "Tokenizer yüklenemedi", "Failed to load tokenizer");
        }
        if metinle_ayni_mi(&k, "error_token_decode_failed") {
            return dile_gore_sec(*self, "Token çözme hatası", "Token decoding error");
        }
        if metinle_ayni_mi(&k, "error_vision_encoder_forward_failed") {
            return dile_gore_sec(*self, "Görsel kodlayıcı işleme hatası", "Vision encoder forward failed");
        }
        if metinle_ayni_mi(&k, "error_no_safetensors_found") {
            return dile_gore_sec(*self, "Klasörde hiçbir .safetensors dosyası bulunamadı!", "No .safetensors files found in the directory!");
        }
        if metinle_ayni_mi(&k, "metal_active") {
            return dile_gore_sec(*self, "[+] Apple Metal (MPS) Hızlandırması Aktif!", "[+] Apple Metal (MPS) Acceleration Active!");
        }
        if metinle_ayni_mi(&k, "cuda_active") {
            return dile_gore_sec(*self, "[+] NVIDIA CUDA Hızlandırması Aktif!", "[+] NVIDIA CUDA Acceleration Active!");
        }
        if metinle_ayni_mi(&k, "cpu_active") {
            return dile_gore_sec(*self, "[-] GPU bulunamadı, CPU modunda çalışıyor.", "[-] No GPU found, running in CPU mode.");
        }
        proof {
            reveal_strlit("");
        }
        ""
    }
}

/// The parsed command line: the interface language and the command to run.
pub struct Cli {
    pub dil: Lang,
    pub command: Commands,
}

/// The three commands.
pub enum Commands {
    Forge(ForgeArgs),
    Destiny(DestinyArgs),
    Quozart7(Quozart7Args),
}

/// Arguments of `forge`, which builds a cleaned text corpus from a directory of documents.
pub struct ForgeArgs {
    pub jpg: bool,
    pub top: bool,
    pub strip_footers: bool,
    pub model: Option<String>,
    pub prefix: String,
    pub directory: String,
    pub omega: bool,
}

/// Arguments of `destiny`, which renames files of one extension in chronological order.
pub struct DestinyArgs {
    pub extension: String,
    pub prefix: String,
    pub directory: String,
}

/// Arguments of `quozart7`, which reads scanned double pages with a vision-language model.
pub struct Quozart7Args {
    pub jpg: bool,
    pub top: bool,
    pub prefix: String,
    pub directory: String,
    pub output_dir: Option<String>,
    pub omega: bool,
}

} // verus!
