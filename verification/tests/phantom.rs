use quote::ToTokens;
use to_phantom::GenericParam;
use to_phantom::GenericParams;
use to_phantom::ToPhantom;

fn phantom_text_of(source: &str) -> String {
    let generics: syn::Generics = syn::parse_str(source).expect("generics should parse");
    let phantom = generics.to_phantom();
    let ty = phantom.to_syn_type().expect("rendered marker should parse");
    ty.to_token_stream().to_string()
}

#[test]
fn maps_empty_generics() {
    let output = phantom_text_of("<>");
    assert_eq!(":: core :: marker :: PhantomData < fn () -> () >", output);
}

#[test]
fn maps_lifetimes_generics() {
    let output = phantom_text_of("<'a, 'b>");
    assert_eq!(
        ":: core :: marker :: PhantomData < fn (& 'a () , & 'b ()) -> () >",
        output
    );
}

#[test]
fn maps_type_generics() {
    let output = phantom_text_of("<T, U>");
    assert_eq!(":: core :: marker :: PhantomData < fn () -> (T , U) >", output);
}

#[test]
fn maps_const_type_generics() {
    let output = phantom_text_of("<const T: usize, const U: usize>");
    assert_eq!(":: core :: marker :: PhantomData < fn () -> () >", output);
}

#[test]
fn maps_all_generics() {
    let output = phantom_text_of("<'a, 'b: 'a, T: Default, const N: usize>");
    assert_eq!(
        ":: core :: marker :: PhantomData < fn (& 'a () , & 'b ()) -> (T) >",
        output
    );
}

fn lifetime(ident: &str) -> GenericParam {
    GenericParam::Lifetime {
        ident: ident.to_string(),
    }
}

fn type_param(ident: &str) -> GenericParam {
    GenericParam::Type {
        ident: ident.to_string(),
    }
}

fn const_param(ident: &str) -> GenericParam {
    GenericParam::Const {
        ident: ident.to_string(),
    }
}

#[test]
fn renders_empty_list() {
    let params = GenericParams::new();
    let rendered = params.to_phantom().render();
    assert_eq!(":: core :: marker :: PhantomData < fn () -> () >", rendered);
}

#[test]
fn renders_lifetimes_in_order() {
    let mut params = GenericParams::new();
    params.push(lifetime("a"));
    params.push(lifetime("b"));
    let rendered = params.to_phantom().render();
    assert_eq!(
        ":: core :: marker :: PhantomData < fn (& 'a () , & 'b ()) -> () >",
        rendered
    );
}

#[test]
fn renders_type_params_in_order() {
    let params = GenericParams {
        params: vec![type_param("T"), type_param("U")],
    };
    let rendered = params.to_phantom().render();
    assert_eq!(":: core :: marker :: PhantomData < fn () -> (T , U) >", rendered);
}

#[test]
fn renders_single_type_as_tuple() {
    let params = GenericParams {
        params: vec![type_param("T")],
    };
    let rendered = params.to_phantom().render();
    assert_eq!(":: core :: marker :: PhantomData < fn () -> (T) >", rendered);
}

#[test]
fn skips_const_params_entirely() {
    let params = GenericParams {
        params: vec![const_param("T"), const_param("U")],
    };
    let phantom = params.to_phantom();
    assert!(phantom.lifetimes.is_empty());
    assert!(phantom.type_params.is_empty());
    assert_eq!(
        ":: core :: marker :: PhantomData < fn () -> () >",
        phantom.render()
    );
}

#[test]
fn renders_interleaved_kinds() {
    let params = GenericParams {
        params: vec![
            lifetime("a"),
            lifetime("b"),
            type_param("T"),
            const_param("N"),
        ],
    };
    let rendered = params.to_phantom().render();
    assert_eq!(
        ":: core :: marker :: PhantomData < fn (& 'a () , & 'b ()) -> (T) >",
        rendered
    );
}

#[test]
fn const_positions_never_matter() {
    let sprinkled = GenericParams {
        params: vec![
            const_param("A"),
            lifetime("x"),
            const_param("B"),
            type_param("T"),
            lifetime("y"),
            const_param("C"),
            type_param("U"),
        ],
    };
    let bare = GenericParams {
        params: vec![lifetime("x"), type_param("T"), lifetime("y"), type_param("U")],
    };
    assert_eq!(sprinkled.to_phantom().render(), bare.to_phantom().render());
}

#[test]
fn interleaving_keeps_per_kind_order() {
    let lifetimes_first = GenericParams {
        params: vec![lifetime("a"), lifetime("b"), type_param("T"), type_param("U")],
    };
    let alternating = GenericParams {
        params: vec![lifetime("a"), type_param("T"), lifetime("b"), type_param("U")],
    };
    let expected = ":: core :: marker :: PhantomData < fn (& 'a () , & 'b ()) -> (T , U) >";
    assert_eq!(expected, lifetimes_first.to_phantom().render());
    assert_eq!(expected, alternating.to_phantom().render());
}

#[test]
fn model_and_syn_paths_agree() {
    let generics: syn::Generics =
        syn::parse_str("<'a, T: Clone, const N: usize, U>").expect("generics should parse");
    let from_syn = generics.to_phantom().render();
    let from_model = GenericParams {
        params: vec![lifetime("a"), type_param("T"), const_param("N"), type_param("U")],
    }
    .to_phantom()
    .render();
    assert_eq!(from_syn, from_model);
}
