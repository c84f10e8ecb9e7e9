use npc_neural_affect_matrix::{EmotionPrediction, EmotionPredictorError};
use std::collections::HashMap;

struct MockEmotionPredictor {
    responses: HashMap<String, Result<EmotionPrediction, EmotionPredictorError>>,
    default_response: Result<EmotionPrediction, EmotionPredictorError>,
}

impl MockEmotionPredictor {
    fn new() -> Self {
        Self {
            responses: HashMap::new(),
            default_response: Ok(EmotionPrediction::new(0, 0)),
        }
    }

    fn with_response(
        mut self,
        text: &str,
        response: Result<EmotionPrediction, EmotionPredictorError>,
    ) -> Self {
        self.responses.insert(text.to_string(), response);
        self
    }

    fn with_default_response(
        mut self,
        response: Result<EmotionPrediction, EmotionPredictorError>,
    ) -> Self {
        self.default_response = response;
        self
    }

    fn positive() -> Self {
        Self::new().with_default_response(Ok(EmotionPrediction::new(800_000, 600_000)))
    }

    fn negative() -> Self {
        Self::new().with_default_response(Ok(EmotionPrediction::new(-700_000, -400_000)))
    }

    fn neutral() -> Self {
        Self::new().with_default_response(Ok(EmotionPrediction::new(0, 0)))
    }

    fn predict_emotion(&mut self, text: &str) -> Result<EmotionPrediction, EmotionPredictorError> {
        self.responses
            .get(text)
            .cloned()
            .unwrap_or_else(|| self.default_response.clone())
    }
}

struct TestEmotionData;

impl TestEmotionData {
    fn happy_texts() -> Vec<&'static str> {
        vec![
            "I'm so happy today!",
            "This is wonderful news!",
            "I love spending time with friends",
            "What a beautiful day!",
        ]
    }

    fn sad_texts() -> Vec<&'static str> {
        vec![
            "I'm feeling really down",
            "This is terrible news",
            "I miss my old friends",
            "Everything seems so dark",
        ]
    }
}

#[test]
fn predictor_test_tokenizer_error() {
    let mut mock_predictor = MockEmotionPredictor::new().with_response(
        "invalid_tokenizer_input",
        Err(EmotionPredictorError::Tokenizer("Invalid tokenizer input".to_string())),
    );

    let result = mock_predictor.predict_emotion("invalid_tokenizer_input");
    match result {
        Err(EmotionPredictorError::Tokenizer(_)) => {}
        Err(e) => panic!("Expected Tokenizer error, got: {:?}", e),
        Ok(_) => panic!("Expected error, but got Ok"),
    }
}

#[test]
fn predictor_test_model_loading_error() {
    let mut mock_predictor = MockEmotionPredictor::new().with_response(
        "model_loading_test",
        Err(EmotionPredictorError::ModelLoading("Failed to load model".to_string())),
    );

    let result = mock_predictor.predict_emotion("model_loading_test");
    match result {
        Err(EmotionPredictorError::ModelLoading(_)) => {}
        Err(e) => panic!("Expected ModelLoading error, got: {:?}", e),
        Ok(_) => panic!("Expected error, but got Ok"),
    }
}

#[test]
fn predictor_test_error_display_formatting() {
    let inference_error = EmotionPredictorError::Inference("Inference failed".to_string());
    assert!(inference_error.message().contains("Inference failed"));

    let input_error = EmotionPredictorError::InvalidInput("Invalid input".to_string());
    assert!(input_error.message().contains("Invalid input"));

    let array_error = EmotionPredictorError::ArrayShape("Shape mismatch".to_string());
    assert!(array_error.message().contains("Shape mismatch"));
}

#[test]
fn predictor_test_emotion_prediction_new() {
    let prediction = EmotionPrediction::new(520_000, -320_000);
    assert_eq!(prediction.valence, 520_000);
    assert_eq!(prediction.arousal, -320_000);
}

#[test]
fn predictor_test_emotion_prediction_values() {
    let prediction = EmotionPrediction::new(720_000, -200_000);
    let (valence, arousal) = prediction.values();
    assert_eq!(valence, 720_000);
    assert_eq!(arousal, -200_000);
}

#[test]
fn predictor_test_emotion_prediction_equality() {
    let pred1 = EmotionPrediction::new(500_000, -300_000);
    let pred2 = EmotionPrediction::new(500_000, -300_000);
    let pred3 = EmotionPrediction::new(500_000, 300_000);

    assert_eq!(pred1.valence, pred2.valence);
    assert_eq!(pred1.arousal, pred2.arousal);
    assert_ne!(pred1.arousal, pred3.arousal);
}

#[test]
fn predictor_test_mock_emotion_predictor_positive_emotions() {
    let mut predictor = MockEmotionPredictor::positive();

    for text in TestEmotionData::happy_texts() {
        let result = predictor.predict_emotion(text);
        assert!(result.is_ok());
        let prediction = result.unwrap();
        assert!(prediction.valence > 500_000, "Expected positive valence for: {}", text);
        assert!(prediction.arousal > 0, "Expected positive arousal for: {}", text);
    }
}

#[test]
fn predictor_test_mock_emotion_predictor_negative_emotions() {
    let mut predictor = MockEmotionPredictor::negative();

    for text in TestEmotionData::sad_texts() {
        let result = predictor.predict_emotion(text);
        assert!(result.is_ok());
        let prediction = result.unwrap();
        assert!(prediction.valence < 0, "Expected negative valence for: {}", text);
    }
}

#[test]
fn predictor_test_mock_emotion_predictor_custom_responses() {
    let mut predictor = MockEmotionPredictor::new()
        .with_response("I'm happy!", Ok(EmotionPrediction::new(900_000, 700_000)))
        .with_response("I'm sad", Ok(EmotionPrediction::new(-800_000, -300_000)))
        .with_response(
            "Error text",
            Err(EmotionPredictorError::Inference("Test error".to_string())),
        );

    let happy_result = predictor.predict_emotion("I'm happy!");
    assert!(happy_result.is_ok());
    let happy_pred = happy_result.unwrap();
    assert_eq!(happy_pred.valence, 900_000);
    assert_eq!(happy_pred.arousal, 700_000);

    let sad_result = predictor.predict_emotion("I'm sad");
    assert!(sad_result.is_ok());
    let sad_pred = sad_result.unwrap();
    assert_eq!(sad_pred.valence, -800_000);
    assert_eq!(sad_pred.arousal, -300_000);

    let error_result = predictor.predict_emotion("Error text");
    assert!(error_result.is_err());
    if let Err(EmotionPredictorError::Inference(msg)) = error_result {
        assert_eq!(msg, "Test error");
    } else {
        panic!("Expected Inference error");
    }

    let default_result = predictor.predict_emotion("unknown text");
    assert!(default_result.is_ok());
    let default_pred = default_result.unwrap();
    assert_eq!(default_pred.valence, 0);
    assert_eq!(default_pred.arousal, 0);
}

#[test]
fn predictor_test_mock_predictor_performance() {
    let mut predictor = MockEmotionPredictor::neutral();
    let start = std::time::Instant::now();

    for i in 0..1000 {
        let text = format!("Test text number {}", i);
        let result = predictor.predict_emotion(&text);
        assert!(result.is_ok());
    }

    let duration = start.elapsed();
    assert!(duration.as_millis() < 100, "Mock predictor too slow: {:?}", duration);
}

#[test]
fn predictor_test_emotion_prediction_edge_cases() {
    let mut predictor = MockEmotionPredictor::new();

    let result = predictor.predict_emotion("");
    assert!(result.is_ok());

    let long_text = "a".repeat(10000);
    let result = predictor.predict_emotion(&long_text);
    assert!(result.is_ok());

    let special_text = "!@#$%^&*()_+{}|:<>?[];',./~`";
    let result = predictor.predict_emotion(special_text);
    assert!(result.is_ok());

    let unicode_text = "Hello 世界 🌍 café naïve résumé";
    let result = predictor.predict_emotion(unicode_text);
    assert!(result.is_ok());
}
