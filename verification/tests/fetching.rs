use oyasumi::fetch::{Fetch, FetchError, Filter, Reply, Request, Response};
use oyasumi::image::{Builder, Extension, Field, Image, Size, Source};
use oyasumi::images::waifu_im;
use serde_json::{Number, Value};

const ANSWER: &str = r#"{"images": [{
    "signature": "e6975bf3222e9074",
    "extension": ".png",
    "source": "https://orig/1",
    "url": "https://x/1.png",
    "preview_url": "https://x/1t.png",
    "is_nsfw": false,
    "width": 10,
    "height": 20
}]}"#;

fn entry() -> serde_json::Map<String, Value> {
    let mut entry = serde_json::Map::new();
    entry.insert("source".to_string(), Value::String("https://orig/1".to_string()));
    entry.insert("url".to_string(), Value::String("https://x/1.png".to_string()));
    entry.insert("preview_url".to_string(), Value::String("https://x/1t.png".to_string()));
    entry.insert("extension".to_string(), Value::String("png".to_string()));
    entry.insert("is_nsfw".to_string(), Value::Bool(false));
    entry.insert("width".to_string(), Value::Number(Number::from(10u64)));
    entry.insert("height".to_string(), Value::Number(Number::from(20u64)));
    entry
}

fn document(entry: serde_json::Map<String, Value>) -> Value {
    let mut document = serde_json::Map::new();
    document.insert("images".to_string(), Value::Array(vec![Value::Object(entry)]));
    Value::Object(document)
}

fn reply() -> Reply {
    Reply {
        url: "https://x/1.png".to_string(),
        preview: "https://x/1t.png".to_string(),
        source: "https://orig/1".to_string(),
        width: 10,
        height: 20,
        nsfw: false,
        ext: "png".to_string(),
    }
}

fn expected() -> Image {
    Builder::new()
        .source(Source::WaifuIm)
        .img_url("https://x/1.png".to_string())
        .preview_url("https://x/1t.png".to_string())
        .post_url("https://orig/1".to_string())
        .size(10, 20)
        .is_nsfw(false)
        .extension("png".to_string())
        .build()
}

fn pending(step: Fetch) -> Request {
    match step {
        Fetch::Pending(request) => request,
        Fetch::Ready(image) => panic!("no request, but the image {image:?}"),
    }
}

#[test]
fn the_synthetic_source_gives_the_default_image_at_once() {
    match Image::new(Source::Synthetic) {
        Fetch::Ready(image) => {
            assert_eq!(image, Image::default());
            assert_eq!(image.source, Source::Synthetic);
            assert_eq!(image.artist, "Unknown");
            assert_eq!(image.character, "Unknown");
            assert_eq!(image.series, "Unknown");
            assert_eq!(image.post_url, "N/A");
            assert_eq!(image.img_url, "N/A");
            assert_eq!(image.preview_url, "N/A");
            assert_eq!(image.extension, Extension::Unknown);
            assert!(!image.is_nsfw);
            assert_eq!(image.size, Size { width: 0, height: 0 });
        }
        Fetch::Pending(request) => panic!("the synthetic source asks for {request:?}"),
    }
}

#[test]
fn the_synthetic_source_gives_the_default_image_under_every_filter() {
    for filter in [Filter::Random, Filter::Sfw, Filter::Nsfw] {
        match Image::fetch_image(Source::Synthetic, filter) {
            Fetch::Ready(image) => assert_eq!(image, Image::default()),
            Fetch::Pending(request) => panic!("the synthetic source asks for {request:?}"),
        }
    }
    assert_eq!(Source::Synthetic.request_url(Filter::Random), None);
}

#[test]
fn the_synthetic_source_needs_no_response() {
    assert_eq!(Image::from_response(Source::Synthetic, Response::Failed), Ok(Image::default()));
    assert_eq!(
        Image::from_response(Source::Synthetic, Response::Body(ANSWER.to_string())),
        Ok(Image::default())
    );
    assert_eq!(Source::Synthetic.read_reply(ANSWER).map(|_| ()), Err(FetchError::Transport));
}

#[test]
fn a_service_is_asked_at_its_address() {
    let request = pending(Image::new(Source::WaifuIm));
    assert_eq!(request.source, Source::WaifuIm);
    assert_eq!(request.filter, Filter::Random);
    assert_eq!(request.url, "https://api.waifu.im/random/?is_nsfw=null");

    let request = pending(Image::fetch_image(Source::WaifuIm, Filter::Sfw));
    assert_eq!(request.source, Source::WaifuIm);
    assert_eq!(request.filter, Filter::Sfw);
    assert_eq!(request.url, "https://api.waifu.im/random/?is_nsfw=false");

    let request = pending(Image::fetch_image(Source::WaifuIm, Filter::Nsfw));
    assert_eq!(request.source, Source::WaifuIm);
    assert_eq!(request.filter, Filter::Nsfw);
    assert_eq!(request.url, "https://api.waifu.im/random/?is_nsfw=true");
}

#[test]
fn the_address_names_the_filter() {
    assert_eq!(waifu_im::ENDPOINT, "https://api.waifu.im/random/?is_nsfw=");
    assert_eq!(waifu_im::request_url(Filter::Random), "https://api.waifu.im/random/?is_nsfw=null");
    assert_eq!(waifu_im::request_url(Filter::Sfw), "https://api.waifu.im/random/?is_nsfw=false");
    assert_eq!(waifu_im::request_url(Filter::Nsfw), "https://api.waifu.im/random/?is_nsfw=true");
    assert_eq!(
        Source::WaifuIm.request_url(Filter::Sfw),
        Some("https://api.waifu.im/random/?is_nsfw=false".to_string())
    );
}

#[test]
fn the_list_of_services_leaves_the_synthetic_source_out() {
    assert_eq!(Source::providers(), vec![Source::WaifuIm]);
    assert_eq!(Source::provider(0), Some(Source::WaifuIm));
    assert_eq!(Source::provider(1), None);
    assert_eq!(Source::provider(usize::MAX), None);
}

#[test]
fn a_random_source_is_never_the_synthetic_one() {
    for _ in 0..200 {
        let source = Source::random();
        assert_ne!(source, Source::Synthetic);
        assert!(Source::providers().contains(&source));
    }
}

#[test]
fn random_requests_go_to_a_service() {
    for _ in 0..50 {
        let request = pending(Image::random());
        assert_ne!(request.source, Source::Synthetic);
        assert_eq!(request.filter, Filter::Random);
        assert_eq!(Some(request.url), request.source.request_url(Filter::Random));

        let request = pending(Image::fetch_sfw());
        assert_ne!(request.source, Source::Synthetic);
        assert_eq!(request.filter, Filter::Sfw);
        assert_eq!(Some(request.url), request.source.request_url(Filter::Sfw));

        let request = pending(Image::fetch_nsfw());
        assert_ne!(request.source, Source::Synthetic);
        assert_eq!(request.filter, Filter::Nsfw);
        assert_eq!(Some(request.url), request.source.request_url(Filter::Nsfw));
    }
}

#[test]
fn an_image_of_a_random_request_names_a_service() {
    for step in [Image::random(), Image::fetch_sfw(), Image::fetch_nsfw()] {
        let request = pending(step);
        let asked = request.source;
        let image = request.complete(Response::Body(ANSWER.to_string())).unwrap();
        assert_eq!(image.source, asked);
        assert_ne!(image.source, Source::Synthetic);
    }
}

#[test]
fn a_reply_becomes_the_image_it_describes() {
    let image = Image::from_reply(Source::WaifuIm, reply());
    assert_eq!(image.source, Source::WaifuIm);
    assert_eq!(image.img_url, "https://x/1.png");
    assert_eq!(image.preview_url, "https://x/1t.png");
    assert_eq!(image.post_url, "https://orig/1");
    assert_eq!(image.size, Size { width: 10, height: 20 });
    assert!(!image.is_nsfw);
    assert_eq!(image.extension, Extension::Png);
    assert_eq!(image.artist, "Unknown");
    assert_eq!(image.character, "Unknown");
    assert_eq!(image.series, "Unknown");
    assert_eq!(image, expected());
}

#[test]
fn a_reply_with_an_unknown_format_gives_an_image_of_unknown_format() {
    let image = Image::from_reply(Source::WaifuIm, Reply { ext: "webp".to_string(), ..reply() });
    assert_eq!(image.extension, Extension::Unknown);
    let image = Image::from_reply(Source::WaifuIm, Reply { ext: ".JPG".to_string(), ..reply() });
    assert_eq!(image.extension, Extension::Jpg);
}

#[test]
fn the_answer_of_the_service_becomes_an_image() {
    let request = pending(Image::new(Source::WaifuIm));
    let image = request.complete(Response::Body(ANSWER.to_string()));
    assert_eq!(image, Ok(expected()));
    assert_eq!(
        Image::from_response(Source::WaifuIm, Response::Body(ANSWER.to_string())),
        Ok(expected())
    );
}

#[test]
fn the_image_is_flagged_as_the_reply_is() {
    let sfw = pending(Image::fetch_sfw());
    let image = sfw.complete(Response::Body(ANSWER.to_string())).unwrap();
    assert!(!image.is_nsfw);

    let nsfw = pending(Image::fetch_nsfw());
    let answer = ANSWER.replace("\"is_nsfw\": false", "\"is_nsfw\": true");
    let image = nsfw.complete(Response::Body(answer)).unwrap();
    assert!(image.is_nsfw);

    assert!(Image::from_reply(Source::WaifuIm, Reply { nsfw: true, ..reply() }).is_nsfw);
    assert!(!Image::from_reply(Source::WaifuIm, Reply { nsfw: false, ..reply() }).is_nsfw);
}

#[test]
fn an_answer_is_read_field_by_field() {
    let reply = waifu_im::read_reply(ANSWER).unwrap();
    assert_eq!(reply.url, "https://x/1.png");
    assert_eq!(reply.preview, "https://x/1t.png");
    assert_eq!(reply.source, "https://orig/1");
    assert_eq!(reply.width, 10);
    assert_eq!(reply.height, 20);
    assert!(!reply.nsfw);
    assert_eq!(reply.ext, ".png");

    let reply = Source::WaifuIm.read_reply(ANSWER).unwrap();
    assert_eq!(reply.url, "https://x/1.png");
    assert_eq!(reply.height, 20);
}

#[test]
fn a_document_is_read_field_by_field() {
    let reply = waifu_im::read_document(&document(entry())).unwrap();
    assert_eq!(reply.url, "https://x/1.png");
    assert_eq!(reply.preview, "https://x/1t.png");
    assert_eq!(reply.source, "https://orig/1");
    assert_eq!(reply.width, 10);
    assert_eq!(reply.height, 20);
    assert!(!reply.nsfw);
    assert_eq!(reply.ext, "png");
}

#[test]
fn only_the_first_image_of_an_answer_is_read() {
    let mut second = entry();
    second.insert("url".to_string(), Value::String("https://x/2.png".to_string()));
    let mut both = serde_json::Map::new();
    both.insert(
        "images".to_string(),
        Value::Array(vec![Value::Object(entry()), Value::Object(second)]),
    );
    let reply = waifu_im::read_document(&Value::Object(both)).unwrap();
    assert_eq!(reply.url, "https://x/1.png");
}

#[test]
fn a_failed_request_is_a_transport_failure() {
    let request = pending(Image::new(Source::WaifuIm));
    assert_eq!(request.complete(Response::Failed), Err(FetchError::Transport));
    assert_eq!(
        Image::from_response(Source::WaifuIm, Response::Failed),
        Err(FetchError::Transport)
    );
}

#[test]
fn an_answer_that_is_not_json_is_refused() {
    for body in ["", "not json", "{\"images\": [", "{'images': []}", "<html></html>"] {
        assert_eq!(
            Image::from_response(Source::WaifuIm, Response::Body(body.to_string())),
            Err(FetchError::NotJson),
            "{body:?}"
        );
        assert_eq!(waifu_im::read_reply(body).map(|_| ()), Err(FetchError::NotJson));
    }
}

#[test]
fn an_answer_without_an_image_is_refused_at_the_first_field() {
    for body in ["{}", "[]", "null", "7", "{\"images\": []}", "{\"images\": {}}",
        "{\"images\": [[]]}", "{\"images\": null}", "{\"detail\": \"Not Found\"}"]
    {
        assert_eq!(
            Image::from_response(Source::WaifuIm, Response::Body(body.to_string())),
            Err(FetchError::Missing(Field::PostUrl)),
            "{body:?}"
        );
    }
}

#[test]
fn each_absent_member_is_reported_by_its_field() {
    let cases = [
        ("source", Field::PostUrl),
        ("url", Field::ImgUrl),
        ("preview_url", Field::PreviewUrl),
        ("extension", Field::Extension),
        ("is_nsfw", Field::IsNsfw),
        ("width", Field::Size),
        ("height", Field::Size),
    ];
    for (key, field) in cases {
        let mut entry = entry();
        entry.remove(key);
        let outcome = waifu_im::read_document(&document(entry)).map(|_| ());
        assert_eq!(outcome, Err(FetchError::Missing(field)), "{key}");
    }
}

#[test]
fn a_member_of_another_type_is_reported_by_its_field() {
    let cases = [
        ("source", Value::Null, Field::PostUrl),
        ("url", Value::Bool(true), Field::ImgUrl),
        ("preview_url", Value::Number(Number::from(1u64)), Field::PreviewUrl),
        ("extension", Value::Array(vec![]), Field::Extension),
        ("is_nsfw", Value::String("false".to_string()), Field::IsNsfw),
        ("width", Value::String("10".to_string()), Field::Size),
        ("width", Value::Number(Number::from(-10i64)), Field::Size),
        ("height", Value::Null, Field::Size),
        ("height", Value::Number(Number::from(-1i64)), Field::Size),
    ];
    for (key, value, field) in cases {
        let mut entry = entry();
        entry.insert(key.to_string(), value);
        let outcome = waifu_im::read_document(&document(entry)).map(|_| ());
        assert_eq!(outcome, Err(FetchError::Missing(field)), "{key}");
    }
}

#[test]
fn a_size_with_a_fraction_is_no_size() {
    let answer = ANSWER.replace("\"width\": 10", "\"width\": 10.5");
    assert_eq!(
        waifu_im::read_reply(&answer).map(|_| ()),
        Err(FetchError::Missing(Field::Size))
    );
    let answer = ANSWER.replace("\"height\": 20", "\"height\": 20.0");
    assert_eq!(
        waifu_im::read_reply(&answer).map(|_| ()),
        Err(FetchError::Missing(Field::Size))
    );
}

#[test]
fn the_first_gap_is_the_one_reported() {
    let mut entry = entry();
    entry.remove("height");
    entry.remove("extension");
    entry.remove("url");
    let outcome = waifu_im::read_document(&document(entry)).map(|_| ());
    assert_eq!(outcome, Err(FetchError::Missing(Field::ImgUrl)));
}

#[test]
fn the_largest_size_is_read() {
    let answer = ANSWER.replace("\"width\": 10", "\"width\": 18446744073709551615");
    assert_eq!(waifu_im::read_reply(&answer).unwrap().width, u64::MAX);
    let answer = ANSWER.replace("\"width\": 10", "\"width\": 18446744073709551616");
    assert_eq!(
        waifu_im::read_reply(&answer).map(|_| ()),
        Err(FetchError::Missing(Field::Size))
    );
}
