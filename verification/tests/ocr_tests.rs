use std::time::{Duration, Instant};

use furina::capture::RgbImage;
use furina::ocr::{ImageToText, OcrStatistics};
use furina::scanner::performance_optimizations::OptimizedOCRRecognizer;

fn create_test_text_image() -> RgbImage {
    RgbImage::new(100, 50)
}

fn create_blank_image() -> RgbImage {
    RgbImage::new(50, 50)
}

fn create_white_image() -> RgbImage {
    RgbImage::new(200, 100)
}

#[test]
fn test_image_to_text_trait_object() {
    struct MockImageToText;

    impl ImageToText for MockImageToText {
        fn image_to_text(&self, _image: &RgbImage, _is_preprocessed: bool) -> Result<String, String> {
            Ok("模拟OCR结果".to_string())
        }

        fn get_average_inference_time(&self) -> Option<u64> {
            Some(Duration::from_millis(50).as_nanos() as u64)
        }
    }

    let mock_ocr = MockImageToText;
    let result = mock_ocr.image_to_text(&create_test_text_image(), false);
    assert!(result.is_ok());
    assert_eq!(result.unwrap(), "模拟OCR结果");

    let boxed: Box<dyn ImageToText> = Box::new(MockImageToText);
    assert_eq!(boxed.get_average_inference_time(), Some(50_000_000));
}

#[test]
fn test_image_to_text_error_handling() {
    struct FailingImageToText;

    impl ImageToText for FailingImageToText {
        fn image_to_text(&self, _image: &RgbImage, _is_preprocessed: bool) -> Result<String, String> {
            Err("模拟OCR失败".to_string())
        }

        fn get_average_inference_time(&self) -> Option<u64> {
            None
        }
    }

    let failing_ocr = FailingImageToText;
    let result = failing_ocr.image_to_text(&create_test_text_image(), false);
    assert!(result.is_err());
    assert!(result.unwrap_err().to_string().contains("模拟OCR失败"));
}

#[test]
fn test_different_image_types() {
    struct GenericImageToText;

    impl ImageToText for GenericImageToText {
        fn image_to_text(&self, _image: &RgbImage, _is_preprocessed: bool) -> Result<String, String> {
            Ok("处理RGB图像".to_string())
        }

        fn get_average_inference_time(&self) -> Option<u64> {
            Some(Duration::from_millis(25).as_nanos() as u64)
        }
    }

    let generic_ocr = GenericImageToText;
    let result = generic_ocr.image_to_text(&create_test_text_image(), true);
    assert!(result.is_ok());
}

#[test]
fn test_batch_processing_concept() {
    struct BatchImageToText;

    impl ImageToText for BatchImageToText {
        fn image_to_text(&self, _image: &RgbImage, _is_preprocessed: bool) -> Result<String, String> {
            Ok("批量处理项目".to_string())
        }

        fn get_average_inference_time(&self) -> Option<u64> {
            Some(Duration::from_millis(75).as_nanos() as u64)
        }
    }

    let batch_ocr = BatchImageToText;
    let images = [create_test_text_image(), create_blank_image(), create_white_image()];

    let results: Vec<String> =
        images.iter().enumerate().map(|(i, _img)| format!("批量处理结果_{i}")).collect();

    assert_eq!(results.len(), 3);
    assert!(results[0].contains("批量处理结果_0"));

    let recognizer = OptimizedOCRRecognizer::new(batch_ocr);
    let texts = recognizer.batch_recognize(&images.to_vec());
    assert_eq!(texts.len(), 3);
    assert!(texts.iter().all(|t| t.as_deref() == Ok("批量处理项目")));
    assert_eq!(recognizer.get_average_inference_time(), Some(75_000_000));
}

#[test]
fn test_image_preprocessing_scenarios() {
    let test_image = create_test_text_image();

    assert!(test_image.width() > 0);
    assert!(test_image.height() > 0);

    let processed_image = test_image;
    assert_eq!(processed_image.width(), 100);
}

#[test]
fn test_ocr_performance_metrics() {
    let start = Instant::now();

    let _test_image = create_test_text_image();

    let elapsed = start.elapsed();

    assert!(elapsed.as_millis() < 100, "图像创建耗时过长: {elapsed:?}");
}

#[test]
fn a_recognizer_can_keep_its_own_statistics() {
    struct Counting {
        total: usize,
        successful: usize,
        last: Option<u64>,
    }

    impl OcrStatistics for Counting {
        fn get_total_recognitions(&self) -> usize {
            self.total
        }

        fn get_successful_recognitions(&self) -> usize {
            self.successful
        }

        fn get_average_inference_time(&self) -> Option<u64> {
            self.last
        }

        fn get_last_inference_time(&self) -> Option<u64> {
            self.last
        }

        fn reset_statistics(&mut self) {
            self.total = 0;
            self.successful = 0;
            self.last = None;
        }
    }

    let mut counting = Counting { total: 3, successful: 2, last: Some(7) };
    assert_eq!(counting.get_total_recognitions(), 3);
    assert_eq!(counting.get_successful_recognitions(), 2);
    assert_eq!(counting.get_last_inference_time(), Some(7));
    counting.reset_statistics();
    assert_eq!(counting.get_total_recognitions(), 0);
    assert_eq!(OcrStatistics::get_average_inference_time(&counting), None);
}

#[test]
fn labels_read_as_text_without_repeats_and_blanks() {
    let words: Vec<String> = ["-", "攻", "击", "力", "+", "1", "", "-x"].iter().map(|w| w.to_string()).collect();
    let read = |labels: Vec<usize>| furina::ocr::decode::decode_labels(&labels, &words);
    assert_eq!(read(vec![]), "");
    assert_eq!(read(vec![0, 0, 0]), "");
    assert_eq!(read(vec![1, 1, 2, 2, 2, 3]), "攻击力");
    // A blank between two equal words keeps both.
    assert_eq!(read(vec![5, 0, 5, 5, 0, 0, 5]), "111");
    assert_eq!(read(vec![0, 1, 0, 2, 3, 4, 5, 5, 0]), "攻击力+1");
    // The empty word adds nothing, but parts two equal words.
    assert_eq!(read(vec![6, 1, 6, 1]), "攻攻");
    assert_eq!(read(vec![7, 7, 0, 7]), "-x-x");
}

#[test]
fn a_frame_is_handed_to_the_model_as_it_is() {
    type Noted = std::rc::Rc<std::cell::RefCell<Vec<(u32, u32, Vec<u8>, bool)>>>;
    struct Noting(Noted);
    impl ImageToText for Noting {
        fn image_to_text(&self, image: &RgbImage, is_preprocessed: bool) -> Result<String, String> {
            self.0.borrow_mut().push((
                image.width(),
                image.height(),
                image.as_raw().clone(),
                is_preprocessed,
            ));
            Ok("read".to_string())
        }

        fn get_average_inference_time(&self) -> Option<u64> {
            Some(1_234)
        }
    }
    let noted: Noted = Default::default();
    let frame = RgbImage::from_raw(2, 1, vec![1, 2, 3, 4, 5, 6]).unwrap();
    let recognizer = OptimizedOCRRecognizer::new(Noting(noted.clone()));
    assert_eq!(recognizer.recognize(&frame), Ok("read".to_string()));
    assert_eq!(recognizer.get_average_inference_time(), Some(1_234));
    assert_eq!(*noted.borrow(), vec![(2, 1, vec![1, 2, 3, 4, 5, 6], false)]);
}

#[test]
fn a_batch_hands_each_frame_to_the_model_in_order() {
    type Noted = std::rc::Rc<std::cell::RefCell<Vec<(u32, u32, bool)>>>;
    struct Sizing(Noted);
    impl ImageToText for Sizing {
        fn image_to_text(&self, image: &RgbImage, is_preprocessed: bool) -> Result<String, String> {
            self.0.borrow_mut().push((image.width(), image.height(), is_preprocessed));
            if image.width() == 0 {
                Err("empty".to_string())
            } else {
                Ok(format!("{}x{}", image.width(), image.height()))
            }
        }

        fn get_average_inference_time(&self) -> Option<u64> {
            None
        }
    }
    let noted: Noted = Default::default();
    let recognizer = OptimizedOCRRecognizer::new(Sizing(noted.clone()));
    let frames = vec![RgbImage::new(3, 1), RgbImage::new(0, 0), RgbImage::new(2, 5)];
    assert_eq!(
        recognizer.batch_recognize(&frames),
        vec![Ok("3x1".to_string()), Err("empty".to_string()), Ok("2x5".to_string())]
    );
    assert_eq!(*noted.borrow(), vec![(3, 1, false), (0, 0, false), (2, 5, false)]);
    assert_eq!(recognizer.batch_recognize(&Vec::new()), Vec::new());
}
