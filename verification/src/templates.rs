//! Template rendering: pure functions from a variant and an effective name
//! to the text of each generated file or stylesheet.
//!
//! Every renderer's contract pins its output down to the exact character
//! sequence given by the matching spec function, so rendering is a pure
//! function of its inputs.

use vstd::prelude::*;
use vstd::string::StringExecFns;

use crate::names::title_of;

verus! {

/// The universal reset ruleset: box-sizing, margin and padding reset plus
/// root font-size normalization.
pub open spec fn reset_sheet() -> Seq<char> {
    "
* {
margin: 0;
padding: 0;
box-sizing: border-box;
}

html {
    font-size: 62.5%;
}
"@
}

/// The fixed design-token custom-property sheet: color ramps, typography,
/// z-index scale and spacing.
pub open spec fn token_sheet() -> Seq<char> {
    ":root {
--brandColorL50: #f5fbf5;
--brandColorL40: #dff2df;
--brandColorL30: #bee6be;
--brandColorL20: #9ed99e;
--brandColorL10: #7ecd7e;
--brandColor: #5cc05c;
--brandColorD10: #49b849;
--brandColorD20: #40a540;
--brandColorD30: #389038;
--brandColorD40: #307b30;
--brandColorD50: #286728;

--white: #ffffff;
--gray98: #f7f8fa;
--gray96: #f2f4f5;
--gray92: #e1e6eb;
--gray80: #c3cbd4;
--gray60: #818d99;
--gray45: #5c6773;
--gray30: #3c444d;
--gray25: #31373e;
--gray22: #2b3033;
--gray20: #171d21;
--black: #000000;

--accentColorL50: #ecf8ff;
--accentColorL40: #bfe9ff;
--accentColorL30: #7ed2ff;
--accentColorL20: #3ebcff;
--accentColorL10: #00a4fd;
--accentColor: #007abd;
--accentColorD10: #006eaa;
--accentColorD20: #006297;
--accentColorD30: #005684;
--accentColorD40: #004a71;
--accentColorD50: #003d5e;

--errorColorL50: #fcedec;
--errorColorL40: #f8dcd9;
--errorColorL30: #f1b9b3;
--errorColorL20: #ea958d;
--errorColorL10: #e37267;
--errorColor: #dc4e41;
--errorColorD10: #c84535;
--errorColorD20: #b23d30;
--errorColorD30: #9c3529;
--errorColorD40: #852d24;
--errorColorD50: #6f261d;

--alertColorL50: #fef3ec;
--alertColorL40: #fde6d9;
--alertColorL30: #facdb3;
--alertColorL20: #f7b48c;
--alertColorL10: #f49b66;
--alertColor: #f1813f;
--alertColorD10: #da742e;
--alertColorD20: #c2672a;
--alertColorD30: #aa5a25;
--alertColorD40: #914d1f;
--alertColorD50: #79401a;

--warningColorL50: #fff9eb;
--warningColorL40: #fef2d7;
--warningColorL30: #fde5ae;
--warningColorL20: #fbd886;
--warningColorL10: #facb5d;
--warningColor: #f8be34;
--warningColorD10: #e0ac16;
--warningColorD20: #c79915;
--warningColorD30: #ae8613;
--warningColorD40: #957312;
--warningColorD50: #7d600f;

--successColorL50: #eef6ee;
--successColorL40: #ddecdd;
--successColorL30: #bbd9ba;
--successColorL20: #98c697;
--successColorL10: #76b374;
--successColor: #53a051;
--successColorD10: #479144;
--successColorD20: #40813d;
--successColorD30: #387135;
--successColorD40: #2f612e;
--successColorD50: #275126;

--infoColorL50: #e5f0f5;
--infoColorL40: #cce2eb;
--infoColorL30: #99c5d7;
--infoColorL20: #66a7c4;
--infoColorL10: #338ab0;
--infoColor: #006d9c;
--infoColorD10: #00577c;
--infoColorD20: #004c6c;
--infoColorD30: #00415d;
--infoColorD40: #00364d;
--infoColorD50: #002b3e;

--textColor: #3c444d;
--textGray: #6b7785;
--textDisabledColor: #c3cbd4;
--linkColor: #006eaa;
--borderRadius: 0.3rem;
--border: 0.1 solid #c3cbd4;

--sansFontFamily: 'Splunk Platform Sans', 'Proxima Nova', Roboto, Droid, 'Helvetica Neue', Helvetica, Arial, sans-serif;
--serifFontFamily: Georgia, 'Times New Roman', Times, serif;
--monoFontFamily: 'Splunk Platform Mono', Inconsolata, Consolas, 'Droid Sans Mono', Monaco, 'Courier New', Courier, monospace;
--fontFamily: 'Splunk Platform Sans', 'Proxima Nova', Roboto, Droid, 'Helvetica Neue', Helvetica, Arial, sans-serif;

--fontWeightLight: 300;
--fontWeightNormal: 400;
--fontWeightSemiBold: 500;
--fontWeightBold: 700;
--fontWeightHeavy: 800;
--fontWeightExtraBold: 900;

--zindexLayer: 1000;
--zindexFixedNavbar: 1030;
--zindexModalBackdrop: 1040;
--zindexModal: 1050;
--zindexPopover: 1060;
--zindexToastMessages: 2000;

--spacingQuarter: .5rem;
--spacingHalf: 1.0rem;
--spacing: 2.0rem;
--fontSizeSmall: 1.2rem;
--fontSize: 1.4rem;
--fontSizeLarge: 1.6rem;
--fontSizeXLarge: 1.8rem;
--fontSizeXXLarge: 2.4rem;
--lineHeight: 2.0rem;
--inputHeight: 3.2rem;
--borderRadius: .3rem;
}
"@
}

/// The design-token sheet followed by the reset ruleset, separated by one
/// space: the full root stylesheet.
pub open spec fn root_sheet() -> Seq<char> {
    token_sheet() + " "@ + reset_sheet()
}

/// The backend-language source module: declares a function named after the
/// unit that logs a greeting referencing the same name.
pub open spec fn go_source_text(name: Seq<char>) -> Seq<char> {
    "package main\n import ( clog \"github.com/charmbracelet/log\" )\n func "@ + name
        + "() {\nclog.Info(\"Hello, "@ + name + "!\")\n}"@
}

/// The backend-language test module: a placeholder test whose function name
/// embeds the identifier form of the unit's name.
pub open spec fn go_test_text(name: Seq<char>) -> Seq<char> {
    "package main\nimport (\"testing\"\n\"github.com/stretchr/testify/assert\")\nfunc Test"@
        + title_of(name) + "(t *testing.T) { assert.Equal(t, 123, 123, \"\")}"@
}

/// The web-component stylesheet module: the reset ruleset wrapped in a
/// tagged css template export. It does not depend on the unit's name.
pub open spec fn lit_css_text() -> Seq<char> {
    "import { css } from \"lit\";\n\nexport default css`\n"@ + reset_sheet() + "\n`;"@
}

/// The web-component element module: imports the sibling stylesheet,
/// registers the custom element tag `<name>-element` and declares a backing
/// class, named by the identifier form of the name, with one numeric
/// property.
pub open spec fn lit_element_text(name: Seq<char>) -> Seq<char> {
    "import { CSSResultGroup, LitElement, html } from 'lit'\nimport { customElement, property } from 'lit/decorators.js'\nimport "@
        + name + "Css from './"@ + name + "-css'\n        \n@customElement('"@ + name
        + "-element')\nexport class "@ + title_of(name)
        + "Element extends LitElement {\nstatic styles?: CSSResultGroup | undefined = ["@ + name
        + "Css]\n\n@property()\ncount: number;\n\nconstructor() {\nsuper()\n\nthis.count = 0;\n}\n\nrender() {\nreturn html`\n    <div>\n    ${this.count}\n    Hello, World!\n    </div>\n`\n}\n}"@
}

/// The component-framework source module for a title-cased unit name:
/// imports the sibling stylesheet and exports a function component of that
/// name.
pub open spec fn react_component_text(title: Seq<char>) -> Seq<char> {
    "import './"@ + title + ".css'\nimport React from 'react'\n\nfunction "@ + title
        + "() {\n    return (\n    <>\n    </>\n    )\n}\n\nexport default "@ + title
}

/// Renders the universal reset ruleset and nothing else.
pub fn global_reset_css() -> (r: String)
    ensures
        r@ == reset_sheet(),
{
    String::from_str(
        "
* {
margin: 0;
padding: 0;
box-sizing: border-box;
}

html {
    font-size: 62.5%;
}
",
    )
}

/// Renders the design-token sheet followed by the reset ruleset.
pub fn root_css() -> (r: String)
    ensures
        r@ == root_sheet(),
{
    let mut r = String::from_str(
        ":root {
--brandColorL50: #f5fbf5;
--brandColorL40: #dff2df;
--brandColorL30: #bee6be;
--brandColorL20: #9ed99e;
--brandColorL10: #7ecd7e;
--brandColor: #5cc05c;
--brandColorD10: #49b849;
--brandColorD20: #40a540;
--brandColorD30: #389038;
--brandColorD40: #307b30;
--brandColorD50: #286728;

--white: #ffffff;
--gray98: #f7f8fa;
--gray96: #f2f4f5;
--gray92: #e1e6eb;
--gray80: #c3cbd4;
--gray60: #818d99;
--gray45: #5c6773;
--gray30: #3c444d;
--gray25: #31373e;
--gray22: #2b3033;
--gray20: #171d21;
--black: #000000;

--accentColorL50: #ecf8ff;
--accentColorL40: #bfe9ff;
--accentColorL30: #7ed2ff;
--accentColorL20: #3ebcff;
--accentColorL10: #00a4fd;
--accentColor: #007abd;
--accentColorD10: #006eaa;
--accentColorD20: #006297;
--accentColorD30: #005684;
--accentColorD40: #004a71;
--accentColorD50: #003d5e;

--errorColorL50: #fcedec;
--errorColorL40: #f8dcd9;
--errorColorL30: #f1b9b3;
--errorColorL20: #ea958d;
--errorColorL10: #e37267;
--errorColor: #dc4e41;
--errorColorD10: #c84535;
--errorColorD20: #b23d30;
--errorColorD30: #9c3529;
--errorColorD40: #852d24;
--errorColorD50: #6f261d;

--alertColorL50: #fef3ec;
--alertColorL40: #fde6d9;
--alertColorL30: #facdb3;
--alertColorL20: #f7b48c;
--alertColorL10: #f49b66;
--alertColor: #f1813f;
--alertColorD10: #da742e;
--alertColorD20: #c2672a;
--alertColorD30: #aa5a25;
--alertColorD40: #914d1f;
--alertColorD50: #79401a;

--warningColorL50: #fff9eb;
--warningColorL40: #fef2d7;
--warningColorL30: #fde5ae;
--warningColorL20: #fbd886;
--warningColorL10: #facb5d;
--warningColor: #f8be34;
--warningColorD10: #e0ac16;
--warningColorD20: #c79915;
--warningColorD30: #ae8613;
--warningColorD40: #957312;
--warningColorD50: #7d600f;

--successColorL50: #eef6ee;
--successColorL40: #ddecdd;
--successColorL30: #bbd9ba;
--successColorL20: #98c697;
--successColorL10: #76b374;
--successColor: #53a051;
--successColorD10: #479144;
--successColorD20: #40813d;
--successColorD30: #387135;
--successColorD40: #2f612e;
--successColorD50: #275126;

--infoColorL50: #e5f0f5;
--infoColorL40: #cce2eb;
--infoColorL30: #99c5d7;
--infoColorL20: #66a7c4;
--infoColorL10: #338ab0;
--infoColor: #006d9c;
--infoColorD10: #00577c;
--infoColorD20: #004c6c;
--infoColorD30: #00415d;
--infoColorD40: #00364d;
--infoColorD50: #002b3e;

--textColor: #3c444d;
--textGray: #6b7785;
--textDisabledColor: #c3cbd4;
--linkColor: #006eaa;
--borderRadius: 0.3rem;
--border: 0.1 solid #c3cbd4;

--sansFontFamily: 'Splunk Platform Sans', 'Proxima Nova', Roboto, Droid, 'Helvetica Neue', Helvetica, Arial, sans-serif;
--serifFontFamily: Georgia, 'Times New Roman', Times, serif;
--monoFontFamily: 'Splunk Platform Mono', Inconsolata, Consolas, 'Droid Sans Mono', Monaco, 'Courier New', Courier, monospace;
--fontFamily: 'Splunk Platform Sans', 'Proxima Nova', Roboto, Droid, 'Helvetica Neue', Helvetica, Arial, sans-serif;

--fontWeightLight: 300;
--fontWeightNormal: 400;
--fontWeightSemiBold: 500;
--fontWeightBold: 700;
--fontWeightHeavy: 800;
--fontWeightExtraBold: 900;

--zindexLayer: 1000;
--zindexFixedNavbar: 1030;
--zindexModalBackdrop: 1040;
--zindexModal: 1050;
--zindexPopover: 1060;
--zindexToastMessages: 2000;

--spacingQuarter: .5rem;
--spacingHalf: 1.0rem;
--spacing: 2.0rem;
--fontSizeSmall: 1.2rem;
--fontSize: 1.4rem;
--fontSizeLarge: 1.6rem;
--fontSizeXLarge: 1.8rem;
--fontSizeXXLarge: 2.4rem;
--lineHeight: 2.0rem;
--inputHeight: 3.2rem;
--borderRadius: .3rem;
}
",
    );
    r.append(" ");
    let reset = global_reset_css();
    r.append(reset.as_str());
    proof {
        assert(r@ =~= root_sheet());
    }
    r
}

/// Renders the backend-language source module for the given unit name.
pub fn render_go_source(name: &str) -> (r: String)
    ensures
        r@ == go_source_text(name@),
{
    let mut r = String::from_str(
        "package main\n import ( clog \"github.com/charmbracelet/log\" )\n func ",
    );
    r.append(name);
    r.append("() {\nclog.Info(\"Hello, ");
    r.append(name);
    r.append("!\")\n}");
    proof {
        assert(r@ =~= go_source_text(name@));
    }
    r
}

/// Renders the backend-language test module for the given unit name.
pub fn render_go_test(name: &str) -> (r: String)
    ensures
        r@ == go_test_text(name@),
{
    let mut r = String::from_str(
        "package main\nimport (\"testing\"\n\"github.com/stretchr/testify/assert\")\nfunc Test",
    );
    let title = crate::names::to_title_case(name);
    r.append(title.as_str());
    r.append("(t *testing.T) { assert.Equal(t, 123, 123, \"\")}");
    proof {
        assert(r@ =~= go_test_text(name@));
    }
    r
}

/// Renders the web-component stylesheet module.
pub fn render_lit_css() -> (r: String)
    ensures
        r@ == lit_css_text(),
{
    let mut r = String::from_str("import { css } from \"lit\";\n\nexport default css`\n");
    let reset = global_reset_css();
    r.append(reset.as_str());
    r.append("\n`;");
    proof {
        assert(r@ =~= lit_css_text());
    }
    r
}

/// Renders the web-component element module for the given unit name.
pub fn render_lit_element(name: &str) -> (r: String)
    ensures
        r@ == lit_element_text(name@),
{
    let mut r = String::from_str(
        "import { CSSResultGroup, LitElement, html } from 'lit'\nimport { customElement, property } from 'lit/decorators.js'\nimport ",
    );
    r.append(name);
    r.append("Css from './");
    r.append(name);
    r.append("-css'\n        \n@customElement('");
    r.append(name);
    r.append("-element')\nexport class ");
    let title = crate::names::to_title_case(name);
    r.append(title.as_str());
    r.append("Element extends LitElement {\nstatic styles?: CSSResultGroup | undefined = [");
    r.append(name);
    r.append(
        "Css]\n\n@property()\ncount: number;\n\nconstructor() {\nsuper()\n\nthis.count = 0;\n}\n\nrender() {\nreturn html`\n    <div>\n    ${this.count}\n    Hello, World!\n    </div>\n`\n}\n}",
    );
    proof {
        assert(r@ =~= lit_element_text(name@));
    }
    r
}

/// Renders the component-framework source module for the given title-cased
/// unit name.
pub fn render_react_component(title: &str) -> (r: String)
    ensures
        r@ == react_component_text(title@),
{
    let mut r = String::from_str("import './");
    r.append(title);
    r.append(".css'\nimport React from 'react'\n\nfunction ");
    r.append(title);
    r.append("() {\n    return (\n    <>\n    </>\n    )\n}\n\nexport default ");
    r.append(title);
    proof {
        assert(r@ =~= react_component_text(title@));
    }
    r
}

} // verus!
