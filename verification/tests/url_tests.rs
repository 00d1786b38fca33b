use nft_image_proxy::config::Host;
use nft_image_proxy::config::IpfsGatewayConfig;
use nft_image_proxy::urls::fetch_targets;
use nft_image_proxy::errors::Errors;
use nft_image_proxy::urls::construct_ipfs_uri;
use nft_image_proxy::urls::parse_uri;
use nft_image_proxy::urls::UriScheme;

#[test]
fn test_parse_uri() {
    let url1 = "https://localhost:3422/image.png";
    let url2 = "ipfs://OQIUi33i3u980uoasiduoi3202uas1ahj44";
    let url3 = "ftp://somedomain.com/data.png";
    let url4 = "http://localhost/image.png";
    let url5 = "ipfs:/CID";
    let url6 = "/CID/image.png";

    let result = parse_uri(url1);
    assert!(result.is_ok());
    assert_eq!(result.unwrap(), UriScheme::Https);

    let result = parse_uri(url2);
    assert!(result.is_ok());
    assert_eq!(result.unwrap(), UriScheme::Ipfs);

    let result = parse_uri(url3);
    assert!(result.is_err());
    assert_eq!(result.unwrap_err(), Errors::UnsupportedUriScheme);

    let result = parse_uri(url4);
    assert!(result.is_ok());
    assert_eq!(result.unwrap(), UriScheme::Http);

    let result = parse_uri(url5);
    assert!(result.is_err());
    assert_eq!(result.unwrap_err(), Errors::InvalidUri);

    let result = parse_uri(url6);
    assert!(result.is_err());
    assert_eq!(result.unwrap_err(), Errors::UnsupportedUriScheme);
}

#[test]
fn test_construct_ipfs_uri() {
    let ipfs_config = Host {
        protocol: "https".to_string(),
        host: "localhost".to_string(),
        port: 1337,
        path: "/ipfs".to_string(),
    };

    let url1 = "ipfs://abcdefgh";
    let url2 = "http://abcdefgh";

    let result = construct_ipfs_uri(url1, &ipfs_config);
    assert!(result.is_ok());
    assert_eq!(result.unwrap().as_str(), "https://localhost:1337/ipfs/abcdefgh");

    let result = construct_ipfs_uri(url2, &ipfs_config);
    assert!(result.is_err());
    assert_eq!(result.unwrap_err(), Errors::InvalidUri);
}

#[test]
fn ipfs_uri_uppercase_prefix_and_subpath() {
    let ipfs_config = Host {
        protocol: "http".to_string(),
        host: "gateway.example".to_string(),
        port: 8080,
        path: "ipfs".to_string(),
    };
    let result = construct_ipfs_uri("IPFS://CID/with/path.png", &ipfs_config);
    assert_eq!(
        result.unwrap().as_str(),
        "http://gateway.example:8080/ipfs/CID/with/path.png"
    );
}

#[test]
fn scheme_matching_is_case_insensitive() {
    assert_eq!(parse_uri("HTTPS://example.com/x").unwrap(), UriScheme::Https);
    assert_eq!(parse_uri("HtTp://example.com/x").unwrap(), UriScheme::Http);
    assert_eq!(parse_uri("IPFS://abcd").unwrap(), UriScheme::Ipfs);
}

fn gateway(host: &str, port: u16) -> Host {
    Host {
        protocol: "https".to_string(),
        host: host.to_string(),
        port,
        path: "/ipfs".to_string(),
    }
}

#[test]
fn fetch_targets_web_and_gateway() {
    let ipfs = IpfsGatewayConfig {
        primary: gateway("gw1.example", 443),
        fallback: Some(gateway("gw2.example", 8443)),
    };

    // Web schemes fetch the URL itself, once.
    let targets = fetch_targets("http://origin.example/a.png", &ipfs).unwrap();
    assert_eq!(targets, vec!["http://origin.example/a.png".to_string()]);

    // The IPFS scheme tries the primary rewrite, then the fallback's.
    let targets = fetch_targets("ipfs://abcdef", &ipfs).unwrap();
    assert_eq!(
        targets,
        vec![
            "https://gw1.example:443/ipfs/abcdef".to_string(),
            "https://gw2.example:8443/ipfs/abcdef".to_string(),
        ]
    );

    // Without a fallback, one target only.
    let solo = IpfsGatewayConfig { primary: gateway("gw1.example", 443), fallback: None };
    let targets = fetch_targets("ipfs://abcdef", &solo).unwrap();
    assert_eq!(targets.len(), 1);

    // A refused scheme carries its own error out.
    assert!(fetch_targets("ftp://origin.example/a.png", &ipfs).is_err());
}
