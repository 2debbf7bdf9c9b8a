//! The raw limb data of permutation width 10: the `(8 + 60) * 10`
//! additive round constants and the `10 * 10` row-major mixing matrix,
//! each entry a canonical field value below the modulus, little-endian in
//! four 64-bit limbs.

use vstd::prelude::*;

verus! {

use vstd::slice::slice_to_vec;

const C_T10: [[u64; 4]; 680] = [
    [5320684913217557238, 10159823466695120380, 13063491808611449219, 1015951777167379051],
    [3276852821979680593, 3562673401694027149, 10001598297912310950, 135658144054277142],
    [14481282408826518810, 6843211571699640687, 6008241540698228597, 1398348733595039561],
    [8787548541948450566, 13629945303440035844, 14661690383685179340, 3456140255839320618],
    [8430697171189628017, 2295949651248397699, 15567052965080135701, 1525748570047895818],
    [12715139918265977207, 6704387983387170137, 159399664321068870, 2600555947662863861],
    [12032781244593610582, 1245983813249872060, 7134775817107067364, 1559622551571365294],
    [9622079574808941976, 10987209090707444979, 9788106399921857334, 918688415987890371],
    [16806961355696186820, 12405115185963052132, 12585025889256845536, 2284895419890873593],
    [12527706813978077931, 2646465494294258212, 13025923782877559942, 408795357098095041],
    [16007314816585715064, 7923730155794199078, 9079563143526141939, 1395978657097472095],
    [5638299962601488458, 16419937443392867889, 11448456739776462181, 750115844064890250],
    [13635205866785946896, 15458917350481232547, 10693291279244692343, 757555437935839611],
    [14083654115361701862, 13993119288994567500, 16210538693886358160, 1398967730214869079],
    [10646890314590534660, 13309923822070393057, 13964257513101966294, 3053608341001664737],
    [14474194360695469151, 1453794495172947119, 15712864182960342472, 1972216130457826086],
    [772141167609071584, 12247878239557644852, 4009127999718108699, 617060179271516775],
    [2780165798532339736, 17317073839346576922, 1346098843095273648, 268165490362286938],
    [11686714474718691964, 2386255410924419667, 1248509236938436334, 442459405190610195],
    [10384102667945096646, 5024961188735250038, 9214622293182278989, 849124532364736100],
    [5075758552584040272, 2043699229848839876, 14540749021327635909, 1887709042206413025],
    [11816369913071142290, 1750780657344970051, 8847955931748203811, 1191184150753682560],
    [2813298336220479589, 14759824204691411930, 5430449051953439990, 2996883262739036998],
    [3690998129090248803, 7302983062133612420, 17844695578583410009, 2492258808645008710],
    [368778244770833881, 694950861027439738, 10559478936356437089, 2401216784096954870],
    [14163717920367915055, 6305666713944972982, 4724864186560556874, 1176583649310749854],
    [11574446033158810771, 4741625949894659630, 13314494873038603170, 1689681102148485930],
    [4522682876892300702, 6920020025985580622, 8753176362275539551, 54771827522536317],
    [3824942046204041822, 10247059088298810933, 3222214150285525468, 1065201516784551653],
    [17533189039560202342, 13284447109406414703, 17030015526052283779, 1485664740386359459],
    [13535024300462063838, 6894223768379655833, 2398851627063646779, 2108832574993700807],
    [683652665202562259, 8206054993903882408, 18155159172373671218, 274631990261729366],
    [6335095302595679097, 16877994458325173273, 11336094111270886071, 1090499177456332226],
    [1153063058988700960, 3995938397138121406, 16736281819115198003, 2298766751799946120],
    [1205969607895763519, 7477927863790825668, 906706865685283027, 320618603002592902],
    [16102203308988857567, 279520315017144712, 15303397173909045118, 2415491697208303180],
    [8884899099400833678, 17222926299248729905, 10831076369351439276, 983183837139229388],
    [2753248038262258706, 10416359063333884752, 5738781120083663596, 1841671709437666667],
    [11824150499556006668, 11641488972685963571, 4667535544859452088, 1267287194254051219],
    [8037844740537532739, 659986188025479905, 17686300850421243654, 337905320973140258],
    [11859386260570704364, 2614475152038659022, 9902861103568768797, 164088897884068272],
    [3300663616675630544, 11341615298550221573, 11437568094281161993, 2654746287556208628],
    [15929424893357622875, 7205611026514235315, 17698427681093064519, 2584665029065503105],
    [6410634620366074883, 4767194589891511495, 16095653853304654860, 887020224714021197],
    [4841952491973431371, 17998170324826093638, 9023082265628308986, 1682544541595711124],
    [2700795707400041751, 8413539290979704185, 9243387301429276238, 204153949077155098],
    [667517897588983672, 4464453552378964715, 11893392189591664578, 1529479801438027566],
    [619137118390884674, 1355267554487770152, 9060122050181173516, 2547247746323205033],
    [7058887346127246834, 7073085387340447060, 2451008887586966242, 612742274344136836],
    [14267232269414845465, 9006369810752136270, 13682552313042259728, 1590069489873353008],
    [5584924188982263775, 15473626157460692608, 6266426306765075138, 1373818083802442328],
    [6158206821455810092, 8300412899157338997, 16689007809069745468, 3362051614832174795],
    [5347596329839097021, 10182090342506557820, 5193720307762392224, 3009816480542427630],
    [16203383768081571327, 4762321321133414220, 8496193366899606164, 2730147681944688480],
    [11422957825082965107, 13155546652293211912, 5277779141933252083, 3251886516674655448],
    [2131614757615552392, 15248798236125499089, 13670877325429492849, 1788347107907513156],
    [4267549390285672282, 10754153274257613600, 3204539892913303510, 2928173441252330237],
    [17293181683275383055, 12225728601706734235, 929818839057970200, 172086058870029055],
    [15384808309060188290, 6252379217408370514, 1766642010924191309, 2285832388911376000],
    [9202377928412372965, 12109136250623707399, 16885703459602510338, 611975960667774099],
    [18401639816196630490, 18142337242473021770, 4359905796761037701, 542959273807642865],
    [231003825425094094, 2828718074226267333, 17929671173194705292, 2043655414123296135],
    [7147597153529894002, 17792040114160834346, 16221559984111978313, 873619380704633063],
    [1963436857375782921, 4974445123782600604, 574571866478754070, 2492558372307659833],
    [7074162247170853418, 16149409287505591238, 17134619481195132341, 423451383050000597],
    [7669867501641210135, 10554807563091437407, 53479017355779571, 3105956909122939941],
    [13341019285433116314, 16827686983172266917, 4604925957337534620, 1847981710277380320],
    [7839892049568030137, 13089111341487182506, 10551165100014501457, 1996882714002945453],
    [1598892030884482359, 6288483176336207385, 11230290807472700558, 2265904679788960047],
    [3085823148065900406, 12576735821052425020, 8302432424334618028, 3157913954103367849],
    [6121946092044962353, 16811119199600958493, 5812198360796475532, 2907173637257832502],
    [8171047582433660127, 11765609586678973214, 16944504349085035711, 282376804517290619],
    [17328796128503531910, 5610113472219749273, 13539760843440331731, 2023039750542026106],
    [6117857172826900295, 4540841926049075703, 1397216742186918291, 335705343024053783],
    [5482873138948883001, 2907172531346357039, 3321668610928093641, 1329769180629297454],
    [11534713701678643943, 7616277543028834337, 7345066151740743818, 1202264535544442315],
    [2129194437360429052, 3868331016449123629, 17619160699565683531, 1168902178978587929],
    [13137326631516609939, 18106141887853791717, 9026174002442683316, 1219915766287466571],
    [3501781109321985333, 9810123791820059188, 6968590337357317598, 2092147239785944924],
    [18323419801393858941, 3804379949908066700, 13451280542753906377, 485252840447994146],
    [3663322081435853653, 14348157430408201150, 8099865770530994900, 265255257122253187],
    [16918713942398964680, 6645504880620446640, 118069759469369893, 1139682795432959036],
    [1342878358175459063, 10007714697087460524, 13942305655583357206, 3263618484430894427],
    [15371375146457662255, 13340466343963954550, 11228033322562065894, 3368828034701207919],
    [4523809835882484598, 8609623157885817560, 990016313774572032, 747619405958352724],
    [10348800972209776776, 2478551057426728765, 7094046592613237505, 994103420664144012],
    [7561954958454905895, 17477532894710786901, 145336703163287814, 1840907094571328920],
    [9190387948239587310, 14710182428802413408, 10249073789853883002, 3068382322222977891],
    [8345036194808273096, 3464136999688471447, 11138217237246055929, 3260980460755920591],
    [12848381915621783513, 5062432739484174949, 7803874975678961757, 197009277034360339],
    [8207468327127871316, 18188261998971970784, 6622468115515509774, 1813643365703968500],
    [10840313196754962178, 3518715939688972054, 397053691064495600, 3151972232795338419],
    [5023436114363393578, 1397073421493638264, 10794884492879252858, 676509909012263676],
    [500001630646080719, 12632947711078923731, 10845420542304506564, 1585561801698016202],
    [6105676115665264289, 15045249499271123967, 8863765396686570981, 2614446384903755527],
    [16529595388442961348, 6285496260713322472, 2454306091105305473, 2943724303492995115],
    [10438375242316473226, 7761515144355828349, 3808689647773406395, 2103628159492098140],
    [3755929195171652870, 1616081572094789269, 11588597168852090086, 1033292764678598093],
    [3033363005362658255, 14466637809856649209, 9275458035115948783, 1468125608808408515],
    [313908064544502590, 16344742588406852275, 4321736050589188241, 821630166179326563],
    [13001921150528208116, 10542335839630817432, 5919802583176700971, 2839316813684390545],
    [15633712052795092257, 1711640808039880049, 7788158482043199034, 1325838557779889444],
    [12870396304379989133, 14588274777588154148, 2660118712183143625, 182612977956944248],
    [1314822883739579244, 4497851244336216128, 11762923084437027440, 3187210595600552477],
    [5199024614512686885, 17700898170485551443, 10458590641030561693, 2092082972042566509],
    [7381471240285259310, 8153098885673395144, 14122369230227696813, 369900782649264221],
    [4451288473596760918, 13752207878405951193, 11248149052929322536, 2815586594642470714],
    [13102625975640873644, 6297342182922721693, 4776800028357901289, 2841542082840796320],
    [8499533256690790242, 12306851350731450593, 1980470518197886052, 3108046433968078502],
    [17405271503849163785, 12316619896751433832, 13299312234636129998, 3403643146020066609],
    [6145464303346900839, 17757347011342262527, 10268533628050310805, 389316264949593866],
    [8549335019353747775, 2509299291777132956, 11715953878830005144, 1015301119227255732],
    [9277131906707666440, 5337820696356372222, 8894233738772195948, 2794910645242345506],
    [11765452062067370158, 4175100728399342295, 6869074322877358211, 2214538139754972370],
    [8109111110274890376, 2765678204916333132, 11315641415445637830, 1590322497366576382],
    [12771017197544863291, 14130488291717677285, 16882328605322186032, 2621873254110204334],
    [9688043365386117778, 18436050670943046441, 18397356359450252784, 1096466779026115653],
    [7959514551665003068, 2672792256823595438, 11009266074848448881, 1044826370021630637],
    [5739375739946151247, 8016272340615078310, 12298615965757894961, 3364540724207196787],
    [15840221382749269723, 6576283272228362397, 2270989126823652451, 2496135843348471260],
    [15800803425746084381, 2346231433750217274, 1597812541105746162, 2828465775646355422],
    [4791702582456035760, 960592302224565706, 4389690827853804020, 1829959175993283227],
    [14012389707217288830, 14890070660115662615, 2667898646407351705, 1198198827225016796],
    [751407254966811409, 14925419316381355522, 16487646840102943498, 186134547256943562],
    [1034925290580275517, 10296094941077576713, 15992039170238734790, 2089705881329017958],
    [7939806943820323781, 7528019282374931046, 15481723886361761513, 1234587044912710207],
    [4772378728237888239, 11124158373755729325, 17509789343828914941, 2724589656828226182],
    [5769665008832584981, 11518787113629573097, 9367306491612107180, 1892264610342238282],
    [7948818110159103231, 12566028298219816746, 8490271449937156649, 1511921182410016306],
    [8335119844173435492, 5848267196560294973, 4894087549041579190, 1623535578165312670],
    [4796785793557037401, 15974621383989912678, 8882017696382549165, 3270944015157791119],
    [495706033483985218, 7944507076141314133, 9929158024073279269, 2764675682435661716],
    [17373562145503864833, 4238288457759099829, 15214227766332733924, 1234224966721359562],
    [2341692019985351498, 1949417115991917130, 3448794886949758054, 1395025235456318468],
    [7776769427290637914, 15082077446821869286, 14215924539918805914, 3430958266792779775],
    [18289116426839076340, 6960920498189974610, 1711234431891100920, 3148715541108380403],
    [6319233305192191291, 4086138863758263220, 8545172916858353213, 2620858426691303047],
    [5261193288792708030, 11804311525176762376, 6749952254808975137, 1586529580051741807],
    [9793268251899987301, 6885183373191667312, 2460105626162914513, 1380808336397727665],
    [8962768035812488377, 1355744318206858331, 1044691400690485220, 1553985836827099722],
    [8561443462201617206, 11820604659101873772, 18446683559544186059, 1872759374758833149],
    [10574477373893175369, 17006182726593240179, 6954169432729165038, 2763003373975474648],
    [5546379633782631345, 17039250226017610916, 12837424043541352343, 160962567671286705],
    [16141025614599162323, 10019711630182451181, 1834903717031740518, 1979064306422747531],
    [3827799552722902291, 4443505784425344039, 7401103538269054564, 2127082946976423608],
    [5986868076417763763, 5259153351518106076, 10965966047917129462, 520740396646276638],
    [17374945597948788609, 17711122945960174183, 17178850977598560461, 2714555235251822122],
    [1039985317656202289, 1983043995291806553, 17465840852216583340, 2026353484933451177],
    [13556293483410932043, 16163068281858319621, 11662459575811360580, 1168483771776820276],
    [7264426708072045672, 7696666075804806434, 14435837947048900291, 665485777229441633],
    [15587139822291658574, 8308569485725958021, 413107683748214240, 1356861269940072731],
    [3695261736689836852, 4412412300330379129, 16991759803726197699, 942527680379397231],
    [6549575851965756584, 17933605350411236255, 2732371684839312198, 3367199269675511109],
    [11806723337907065952, 1547659948191001775, 6459950022055664811, 1668021883373593304],
    [14681340594215857328, 14356945697602532327, 6176490184955854228, 1492393184445289270],
    [10889999467567146561, 8297201963253352321, 6529412243062872051, 1462730558827443643],
    [6737460085064448585, 5908811914885784721, 5453112462324137860, 822334920128668275],
    [3861147518941420506, 13817437540043954619, 14856238953536507430, 2253365378969550907],
    [5942937079106284759, 12861950095081220645, 10534780348282524843, 2792447247255327123],
    [10539148611274491328, 8856828341028380838, 13006652484892659532, 71637975160695727],
    [5878718454377346868, 3053242096271139599, 5911656348917276349, 2656821661551323878],
    [14577301036073783480, 1381375052644068955, 617371571569709461, 845495121563110062],
    [14210358171459496525, 10250024856165097263, 4862475739794744332, 1125751302550053752],
    [4165717948494366960, 9712075916735115372, 12025470810451038199, 2782330647635792746],
    [429981273402200958, 13883344975303927333, 1455140832540768012, 291149396384760237],
    [11743510479190210067, 3675368819561828455, 3214179667627759715, 797378282878797880],
    [7764837433299577504, 9291437890071469227, 17683141427527514811, 2192344564378709393],
    [5193977836924262155, 16499735276786048622, 9446803809721555194, 1175326694197203475],
    [13391044788749047828, 2575889016422992575, 14484933319053068329, 3015563828023118994],
    [17250588962811781629, 16067516333347861871, 10672814606379429374, 1637365925181514401],
    [9039460022821003168, 1509619585417630886, 5396943474469440406, 2883603145626124011],
    [2567750854904990534, 512971195458750234, 4993640356603782250, 3153142549329210246],
    [15916527106940340722, 14231258120337684831, 5615962979061330377, 1046493111421631168],
    [780708460969559598, 2241351769395568047, 1846800471219478604, 1546693273121251240],
    [4867732643925657585, 2705203244053994163, 13550778846573674086, 3345364837202974584],
    [16005050893215595157, 257205413612115220, 15510692642500385881, 743681912026398852],
    [14354625832602621074, 142780738219141463, 11429706162862975771, 1634538859705889099],
    [9549686432915331756, 12170948040227090181, 15835687644578474895, 571737429432501980],
    [11608163590013280981, 13949538399292666736, 3147736167170436975, 152242626280553900],
    [14750224870966843462, 17719334994723364747, 5761152803235685702, 653490462040585251],
    [8327299497311957306, 17483778309482368505, 14977673976926529522, 2055364021678977886],
    [15273572417678183435, 8410077049178954018, 11345172542009797574, 228194567528840197],
    [15065720658671876176, 1978697325333892578, 11693842798444960195, 2142442723011182003],
    [2358165565431997797, 776816408706273014, 10845256101131497409, 2978886617313969967],
    [9783753537233647400, 15067980846082313753, 14468388380281472540, 974057056101895282],
    [16793445763904650816, 5767003928246531454, 11242202339292479985, 1320742120702302002],
    [12740623625502567460, 7084176855098016103, 3992968551388332813, 1632264993022978356],
    [16292908960434082649, 1007533033004065675, 495288021591312291, 2586396691517889045],
    [14571287780963795279, 5452035469855615737, 9237382480202693957, 971184384542710775],
    [5809925360487651361, 3849454963037076068, 4680816663166031941, 2412026449085525584],
    [15057362087004131494, 239359248420263430, 12326846055869997574, 346670596384073839],
    [7497716002761445924, 15847005709697323903, 5323400409211363010, 2169757643386289781],
    [18378859499854610388, 16502246520137172947, 5467588641797139920, 1323945900241180647],
    [16596592033035374258, 15177779765415058118, 15092222034465749073, 1232793471047938725],
    [2808828046428386074, 3380809016577373240, 14413299877549965120, 713600028641984613],
    [8130259331725609740, 2074390533106262816, 2541894748609990646, 676936468096618657],
    [186135329744242605, 3663224836157653291, 7180118820440779527, 671929121899565560],
    [12991146680226358005, 4080519678657310853, 1037384557740505880, 2095441066832968290],
    [10149028884660194628, 14648559294497358825, 1793227493808241835, 700464686436133386],
    [15530720748407425683, 5369810594873582891, 4941299042745576585, 2665949231670646600],
    [315763338415812291, 1709827414544856716, 16692364844811821528, 1436277342682784334],
    [17031520090212077808, 16924703657714989470, 15935608831658741131, 1252011926863609314],
    [17155253083555408442, 11670631965192583755, 9088096702849477540, 3203892031668536270],
    [17800284542182911159, 13509811273627564271, 9633354175559544655, 3286253004624233697],
    [16420241050165216024, 2703229143873683892, 825412994299531767, 1725231034258346881],
    [11336246242677718786, 10313334410545017532, 13671839340928983028, 621450020772775426],
    [143492899117710076, 4803266283024939381, 9550602089340646900, 2844562978572923813],
    [157357476465929237, 6444245216664401053, 5515131578836441715, 564854160324278371],
    [9409038426957685224, 2507210848182859741, 11133092179807725591, 1957122837845896870],
    [10366850508278844091, 17967201195469252801, 16411284715904239680, 1882963418116246169],
    [4011415773222084577, 9328047981735561889, 7500501532983049028, 2278372688694187475],
    [624301097049622438, 16208007863809257600, 1862745849622264125, 568994180259105857],
    [4618040996345255042, 8705813315908922887, 10648101141539841621, 715928626496764917],
    [12793741039736379153, 13041978115235694145, 11334645572563858864, 2909294235252114214],
    [7236895362876853692, 14175547757518772088, 13452853524769052097, 1848560710226796943],
    [10629937869375209936, 11461989524076471505, 12246405742102965883, 772249363060317452],
    [1264017289492600844, 4569425644927114245, 16723399310275845248, 648347877942116235],
    [6395247864481810601, 1121617048943183538, 8203677540728963799, 3390442284144146017],
    [4793763725728634056, 11870464403382579405, 16233758596110650801, 1708099863147422817],
    [4996673691014992369, 12294301029788872463, 1006918584581666399, 3250054858059696424],
    [4433831258253625282, 8156763213639821532, 15331520752468212121, 2168522877455597783],
    [7237426402026846899, 16672975400967847560, 1991073935392126106, 341248937634763412],
    [5330452260056477786, 15917024504200797801, 11836162028831103490, 1085544744522137754],
    [16643263864025063543, 17631343093386448712, 2266444294804946220, 529064751942570991],
    [11262995445632537674, 15286400055532263625, 698788786999552675, 2294783421352300496],
    [248764807559227185, 9179247838583624332, 9788614124121709601, 3098429317964342646],
    [15628661596320577650, 12064651334829019456, 7390315997649469830, 3441140765837519227],
    [276878994583852499, 13863479293982356229, 3371646802218022936, 2568527681351213794],
    [12654715897821710459, 2519371942925736428, 9583867403454095418, 607609429412469613],
    [11072344359286403810, 7245399981607618260, 13241565343486694545, 1101289917473149329],
    [10609811301949860955, 16432673394772994394, 1219683245580875241, 1432350933782824844],
    [2886603682788745195, 18353961840393078088, 8005873340574304730, 3153464272717307388],
    [3546662207751239084, 7627737707177167308, 36181404532753329, 410634386546380875],
    [10092461332019821754, 17754796708881468362, 16733243272282355775, 1680073165421810136],
    [14793164687279360015, 7222513692115575730, 12838905843561702083, 1996557116752657314],
    [3644210772372102861, 15308632014197919771, 9483702828910660804, 3048526644666070610],
    [17390733308525181055, 4994811688079240319, 10768016590783495631, 1853658556543283771],
    [3693913035949866299, 18345413324532588075, 12124921617807497272, 1229587708289118770],
    [17659958574043529376, 9174259899016368807, 17474447808336339664, 2461252755247754138],
    [14007410478637531101, 9619047059775191435, 9721007013570249917, 2356724459123911105],
    [8438481828220216822, 6661243093071771576, 11354670441384228339, 1494301161999798975],
    [2902572830914643318, 4929745644896131103, 406946560736893522, 1593344555571514811],
    [12404627961586374469, 4692554470981314411, 3445529435135681737, 2798204096431322086],
    [8394380532175475189, 12063700779753357484, 1226849080726615555, 2154923903998302728],
    [14729608452549724864, 553720605072134218, 5691863473465547894, 2990407401196937613],
    [8069123934516800293, 2251534446859379621, 5782541799544685480, 2815438028384146083],
    [3462581178093306364, 8040944670999179994, 799508490740370195, 1614905450583826740],
    [1084292095319688504, 7790394848370215668, 10909096514931965443, 1859053725986710523],
    [5565463102239161647, 3317682195274358755, 15270243763900990036, 1388723196698443398],
    [9470412395628358900, 9701176065837340751, 5639967231430559628, 569480929721168325],
    [15520706661760066609, 1327787885686374677, 4254340669104493779, 467803026516726241],
    [6318022265972929711, 15200832174734360642, 12896295843701428385, 270781533112904729],
    [11793000444576857015, 2651581757954840764, 15819917452851053686, 3224328601698106010],
    [15203707300013380091, 2461397409349218260, 17126841041224972378, 81123776642387981],
    [15061894858534094254, 10598512320430802773, 8323427056287998616, 1985086040705477430],
    [18416314565513043286, 11435113389365120806, 3306396204304194963, 1461241562592555034],
    [1168679927782588711, 15311800015279845237, 17967334054546705743, 2393512508204435541],
    [12678461504202107264, 7780164142491650708, 17366329714583977185, 3084757670438215827],
    [11930822853608354688, 6513973227452874652, 10856457777005336009, 1808559638511634277],
    [13677934688965338040, 9496889984557645139, 16946906310133416117, 801818689774485521],
    [4844866327198801034, 238544089180154374, 12498228865262718326, 1488388923324290806],
    [1309015865317891005, 10782349996766000970, 13374472365919339037, 1807109031210346667],
    [13134308413577348392, 17831271179665566920, 16564218003788927756, 3229458194081426406],
    [5580301500358243416, 3527991165951413085, 7963213015144937474, 2067692934007902855],
    [7394475012537436525, 1563874742646209992, 4726115930661090142, 415645575192632981],
    [8234900694196909271, 12754957542549194903, 16496761303133967582, 2650608090576041111],
    [14341103924486490176, 16428516099879493575, 5526569645202135481, 1002078782929006583],
    [5861335536631089396, 2697033905069629061, 2545108045983340434, 3480412571647168918],
    [16082490977242032305, 13402780311668050132, 12077590564311421165, 1096263148996729177],
    [5068367271690573929, 17254560044130344027, 14410009924887850688, 1910412265111184490],
    [5907311540013914860, 9873919007363073126, 610787533261548536, 3278452599000503982],
    [4862342631755638401, 2957517415064417917, 15967250622189856734, 657619037903353458],
    [6686468253234317631, 10018090352634241858, 17815614763895480682, 2027439781287550915],
    [15966648662835403937, 10871600850515824596, 1285435979587946389, 2042793799613155204],
    [16825469616018171507, 2767754860792323344, 11495950734130943102, 561690766036614086],
    [6293658467228556601, 11991665648077570308, 13119529208147463190, 881747305401976096],
    [11182925915684633005, 1842973901210800012, 13419071292253213241, 257424731382040844],
    [13358485818929834111, 1317060850972143859, 16277183880753697639, 234459345574384495],
    [1707170010782764418, 5480128901833633184, 11295507229996631628, 219099395876429568],
    [4486676303350062612, 1724038357839496731, 3187384430494161471, 3045181028333290969],
    [6085462763282367658, 9265105557272547949, 11185292653492764946, 1533935041967830377],
    [10577105035158737940, 13576786725207154294, 5629328806481513093, 3481307001189203309],
    [5349975257593008138, 17462311935702638745, 3708984901134164394, 2035243756711107804],
    [8379246946404626931, 4355001188185505918, 5592525989077542408, 22286156727396877],
    [16273893510234739360, 14482235318400357158, 293462009248623765, 1382575578718846211],
    [17599073137202579543, 886175917485900279, 8050705084771454349, 1871826674098200968],
    [7744446430712717025, 9724501449625192524, 14409130940529191902, 3269492165167108826],
    [12870241860521551642, 11264981311403303323, 6609806211593500847, 3291526212262905574],
    [6971043659679186059, 14346984134550309494, 10525672903819844193, 272749460552175648],
    [14360884855283240724, 12712332207416171599, 4861845991373181144, 840228270998776705],
    [14401800544959017057, 15048196747060957501, 14387887669357188490, 1073409050335604826],
    [8943294126666026850, 13494732854207077179, 84772637023712559, 1242996152966416836],
    [2888877307091940858, 8641694838598377346, 2957388609923324101, 1688498839659166070],
    [2534777427211274218, 5379501037959839173, 359460946156416211, 1433703360682348400],
    [13517141363193368454, 4352274847377278210, 14655029355027088341, 1617650879160540166],
    [15997038888010446117, 15315416857564022537, 17832659662348099314, 1611638767320301269],
    [1663211104230600953, 10418489262101002775, 16676320419147526762, 883411932082061799],
    [13325239476003181246, 9011982809231947544, 6718115429630862567, 3382629115903937034],
    [5893370118900415955, 18133121754784683091, 16171491155378283401, 845516331720484790],
    [9530668030145224357, 11646492221884545656, 994779995550685787, 3405284537967262719],
    [4316806679672774353, 7211563491315157351, 1535350518054545912, 401123466858245337],
    [9502517860679051301, 15215291922825634871, 13620010823768222932, 2287735046917873915],
    [3307064560718170117, 15217582444051685825, 6262715198244831758, 2716742538292937857],
    [13198420448742998638, 3611359478421428684, 226288457745757904, 1578212819643720781],
    [12877058455165877239, 8091639075024181724, 7794653201682298429, 1649583431735131366],
    [12252006081647542508, 6324384394583913505, 14615920037777839470, 2134570488345648001],
    [17212764544101276926, 4610991412578983598, 3061423534563151845, 508379444473547564],
    [18149133555332128167, 2611107020605584612, 16588036224304813417, 747476243184981260],
    [12128289173360956430, 2220525254069461339, 10881957116753796428, 2842729346477400917],
    [1612030774595452580, 2405192891404167157, 5992091618470890679, 101262647486910569],
    [13892067556046652245, 15367323058050912686, 9244843040722940747, 2012216607180038292],
    [3309988843119317848, 15282740553716985556, 14285345225708391644, 2252706291887237113],
    [637756690274115094, 9486424257047723040, 3660185996704150317, 3245156022627948603],
    [4782934080121319866, 3821586707476955922, 17253121723907839494, 104242248166518103],
    [15344326437656011204, 5920705910324218695, 10389200053682020945, 813704591488045843],
    [12025656678433041589, 17499245454495319550, 11734328611961291633, 1943379261274112063],
    [5073449047472581053, 18246686422430347758, 1882447872629820089, 2588636855094425125],
    [5969440173838634016, 13980416635946352626, 13412559397633189752, 1764222498176056876],
    [2954181059170686451, 14972635117275195112, 10046106465192808290, 2741287938093310873],
    [7990326107767638734, 1512949672097992239, 15928744677100510445, 3387325573650730060],
    [2617552892023680398, 8764981697456556254, 8290299278315049332, 363344944794206335],
    [9926589379768285569, 15838740704237702314, 17985676523146955902, 1633556967400178640],
    [1476890841596120492, 12026048581756270769, 4592296438285156963, 1236232802230979733],
    [8560304596792034932, 14682229956116007563, 1223043211504174430, 2264471331262362807],
    [16005460241389229688, 6586401216291043949, 7088378327389855335, 1449003788542944179],
    [8408937453312030982, 16482442685649742225, 6782944916147286620, 2015226665020527796],
    [3291709288631797329, 9834906004491708273, 17827524283157192266, 2655362895948800827],
    [4395551545039891820, 3364075993794499866, 2367658643447775850, 2928608523427611923],
    [9852844957806044703, 14562274344549238982, 3602558078795299452, 2330397395399591239],
    [5473535769730359744, 3693926885638502107, 2229045904005784545, 726681899311395428],
    [2875085063915539568, 11201392661623107244, 13808628330885666528, 1957874671474198767],
    [6138430016780530602, 14871317937221768065, 13912569227934654086, 1907738265275382724],
    [2706136869267960851, 14396746337239051413, 18289061279609678808, 2167893818435921751],
    [17392231022364801046, 4472893912357422169, 14066760901436097611, 2993209008847681390],
    [4292367108304704278, 7610533443641241808, 17300723941195512708, 777694574818761579],
    [6569259099186342243, 16907390017247367992, 1920468890975689146, 2677888056010448125],
    [8100525766818637476, 4519410654121836953, 4556332490403615643, 1856745467139297048],
    [5322580549642275209, 10137275681302001698, 2241897591621021190, 947728162045284241],
    [561714592401628946, 8397191741689843132, 15166654560626584393, 2186747680856192186],
    [8848211461635843512, 18138315717904706938, 1632525232826964529, 2781169541406875451],
    [11196414224197598765, 14736744527547711788, 511818890539116655, 2034094549517034772],
    [14157814787586717100, 7397437101067335301, 18033641419350607274, 2965565728864363635],
    [6716386819041410033, 6531215290063477300, 5994913707493726884, 2714007942534270317],
    [13966578697784568212, 17097071832951323956, 10960026899419876237, 1139148003425923351],
    [4632144137795392337, 14608862030649783066, 9026925007021734730, 433239940983183621],
    [16827527735750519646, 17513800294097141657, 4448149685810324822, 136249838613458862],
    [8146477909989707914, 13675597659675026487, 5486816267380758735, 2850924347404611410],
    [3936301414497513780, 7089452375636336728, 9143802081998915543, 205784686201625808],
    [17007842146798176700, 14718267753861394014, 8439368573927692810, 1817055415039811072],
    [18312604482617593786, 8137020431363824191, 13300010967662887719, 3242679452894624169],
    [774947356021050382, 8545399006630555375, 14830234433842903915, 1709175592915428371],
    [1986422961930150908, 15929899505554257796, 3230096552189577861, 1955488202537637022],
    [3636387160282568614, 7800218813458841663, 10739972774229937308, 1551597812875889240],
    [3970967614159236276, 3979805348273227198, 9522956076123631210, 1076220204860773397],
    [10521304518834758734, 16250600590330785317, 8761320476005885444, 1931831928887565845],
    [17925282543383421115, 18022366697445898683, 1549578187728179890, 3409037955769507532],
    [5997926456734282428, 18263080560557156170, 954950026412402519, 442080969388345523],
    [16098937997882282475, 10879233533746387927, 16422779425641117664, 2057216258967578004],
    [109625769667790487, 10177660912585691885, 7620629859115586467, 2230717724989794308],
    [17998775710381519700, 16091563460282392364, 16271769598873995357, 513294274682974481],
    [14510007296466088619, 5885497245162641179, 11326187383867237299, 533950654428226095],
    [4603966610796948080, 1264552365417372523, 3764395704339219560, 1400542314439839691],
    [7236706541850774145, 16900998030720357183, 10190585107573776549, 1450241359475109836],
    [18041814621950938223, 10609061816056010176, 16845368643278846783, 1816246247944165617],
    [9121223106842283992, 9316450759329932475, 2112249067401106225, 3457943453751400367],
    [16859916631575380740, 3396720343470029583, 13406777187610023216, 6897047578886994],
    [2952977584216582735, 2460629629044618188, 357246951444737678, 2419837096225400842],
    [7287337762801158673, 13245570163408637422, 1890686643069551196, 1406474237056074280],
    [15538978296801112009, 16225515192601057017, 16858809684036312237, 772384273748428681],
    [7746923444744739435, 43565524678517934, 9738625111465324160, 2009631651932700996],
    [12332460084571065812, 6186586151632965760, 9097174330567265882, 2272761492845913127],
    [13484556206457338606, 17987065715105930177, 16888942767324113452, 2755224155388573270],
    [6979512789522782369, 3244635963040679744, 8236597963891154764, 72498056464953837],
    [14798750334045210105, 15402993546789370523, 16395129462780149725, 299980565984919650],
    [7140468367525234655, 7043949178028820684, 16421609568112212165, 721667841179238574],
    [9486242326537986346, 11519106020349302010, 3406877707525777004, 470776189451273026],
    [10743065501586390079, 9345182571564805208, 9670918849083478925, 2065871398847302284],
    [2267985951999553338, 5708178903652238631, 12950365924070824488, 399097513522272154],
    [16269038540528875256, 15018227640096505810, 4529629287227796344, 583811510215036975],
    [15638824406901909795, 1724824895662683256, 3029695892471642286, 2094854578408701222],
    [12702271210024572893, 7834696180120696110, 6595619709193662348, 1860035896258537667],
    [3016796403861732844, 6113185620517950094, 8553708044953073830, 2197230896819315835],
    [16309969912758961315, 18384017703155528819, 7328437002664604451, 1629353771602608388],
    [10339283192430256571, 4383584376058308581, 3609972945130111933, 1944461083892044861],
    [8654507631747366639, 6817704790099488168, 13626043979198605867, 2422802479501735342],
    [4752620261193740440, 8542231947206919089, 11700454572821532876, 988291198686101811],
    [4719626968046388548, 14818607377899311349, 17378727921351300437, 1396184452866773708],
    [16604084466117001427, 9134158680273095806, 10199876369845994421, 15133907293059230],
    [1359199991194404138, 2084697241228908470, 17157345030994231491, 839512684483249247],
    [7606328419098384263, 9174863938054217122, 16508817657403655463, 2590825009475234548],
    [15860938931758755863, 7694103720431692695, 16279683637039778122, 1297362670935449068],
    [8911364687587022058, 10062134081936395096, 3904918049525506228, 1807484391773373315],
    [8474934829427409957, 11236750583121142585, 10004850539440494629, 1805610880382961834],
    [4921695242445849008, 8540512122958526372, 4147889599999832726, 2657194706186903212],
    [2807312230776604157, 6789314148415220339, 16716298159025968691, 1388742195633262555],
    [12960162674323299964, 17291436180795489685, 6153285439528082625, 1268390873582664666],
    [3237804030749473609, 3703530019723997928, 12424521906352136670, 1836120194996923565],
    [15726646027320347411, 17559915673900340800, 10333257246280723979, 96617161756773381],
    [8714404397396400892, 9475593254428030404, 11764568392139904770, 2583487602083952784],
    [8219269056942909470, 17212789783128433533, 11857307030924200118, 2541428124850648251],
    [18198702980691943557, 382516756402793560, 6206807096329774706, 3375157407852825293],
    [4430996105788823085, 5282036463019155297, 7108708821708546403, 1106356768472105932],
    [1400933633639236840, 14199245472478742095, 3597890354498306340, 1622710917368256259],
    [844686324207360752, 210428536419355232, 16773438295977878196, 454974261592344241],
    [15983965153803492907, 18035219414301887901, 6385394006560212815, 1662109276849155781],
    [7073383656816906298, 13926204750097411377, 4134698537451095234, 3094911156452481371],
    [1157258267953695002, 15353475189584908894, 810252316757396467, 2492267143934714087],
    [1969992804037479266, 8346412490034180056, 941228716329574068, 2728630848870711700],
    [1324982387843455800, 4945868538681235178, 12548008289250996797, 2293869164853678810],
    [5942302919064180908, 16195988626434318170, 5792856711437625793, 374842664952633187],
    [16532471358306371621, 13203859463164328923, 13016201431997644800, 1620601371325356495],
    [7003528450975696632, 17446452173526770068, 16162051479705402944, 919563647227841857],
    [6410997178516303378, 14154883514413855839, 9567350801939637777, 234593294700689246],
    [16615310882618745985, 14046373123477535624, 13247562191676254457, 2075153937747154108],
    [15396364473965689736, 6009459073496075476, 14458514679978255563, 2798227392271687030],
    [16207373987078894275, 14757488432885340775, 7280632722281153326, 2613549259250862889],
    [12865108493643110583, 8022781547177121075, 5133604593417532750, 587857014392844682],
    [14335640993857513245, 18039185882108564954, 11840191379873747934, 2792871857431930816],
    [16683682085873457828, 12706168197009277535, 1666902587065401064, 2097819732825010748],
    [7647423994970460305, 17087309576876871828, 1913389488286625682, 3001310725630396722],
    [6145330752429863813, 18356716319439375108, 8971076456430201519, 2499576054156943904],
    [7336727936106845544, 1853268557981365085, 6680474449679448309, 777543275261278527],
    [8603483730144565017, 18057289454055063394, 11664713290056011481, 918854023274802264],
    [14268832707743464516, 9408812184841754277, 8891695564532099610, 2433429731027805377],
    [10946950893716373439, 16482990972588193145, 11226468550715721811, 599310756471280689],
    [13680620338366987321, 11952206053881591641, 13210109550956806728, 2720413862842083940],
    [7714446701983537502, 16167554334577791682, 5680666745603947450, 2545329373362657836],
    [15705505740750067555, 9221348427971034108, 5390183668082701481, 2646772144154081297],
    [13022229338118639419, 4579117288780774092, 10044620301918712593, 232956353531239974],
    [10756278587784045747, 8849843491831746012, 8305604656184603208, 2435122780539869084],
    [2972438593342526733, 13327770716585683963, 16940278760905946738, 335841077345259005],
    [8346946587406103705, 8104751121844270806, 6929555650987058823, 3311313851475717062],
    [11993651772497106951, 8604147901935391733, 12943637047459303879, 1700447751216833485],
    [14507815843835924323, 12037679107682628931, 16710740690208874152, 868980050118873171],
    [6814847155077778088, 7167293031728048793, 17331113353968339517, 367753164243353834],
    [18262157157052250695, 15249345858891115774, 16274385556734798207, 1198197829900848642],
    [1384311794737115827, 10888419599471124169, 5001588228366489548, 3277471815689309029],
    [12107466070894414933, 4428032295877115224, 3936174094712194674, 1437136149290208181],
    [2020873306503895256, 16507933686061054706, 16565352338227911440, 297195246744062103],
    [11574275659557261361, 8434949023849522344, 10378105716866044105, 676499989382515154],
    [6823823844362315199, 1129482725696581855, 4236726669571258059, 3094938797322925570],
    [1382191705711889568, 15110190679979565802, 697009387727383852, 3429303717809487937],
    [8357728118408881872, 16261311023281733128, 4932638570872192267, 2579520316416692562],
    [15568857908776614800, 16863407256622155670, 8707818041216853287, 3052151750223504229],
    [9159578005786562316, 2431029271003966349, 17235653865713138751, 2819829388405783682],
    [8034212709699392706, 10845800863206688650, 15684617933067405343, 700640719757969605],
    [9447978458675344907, 13691353159423604503, 3232320761857735010, 1168269416952105303],
    [5449496540373878581, 5544936383364028698, 14319900367027753878, 2573287271949063618],
    [13546392235077722425, 12561380634957156897, 16274986955104879732, 1767398161028703648],
    [12620796759895126621, 3257236225961599807, 10041724369589267266, 181993170123568660],
    [6968683851461034626, 15607167380492522350, 12440809680709168448, 1266070475480335853],
    [3853334621396247478, 13062424147649449218, 12977634574185018455, 1614553123528332760],
    [4195681637547385399, 14466493340341887330, 575283069660697921, 1733840087427546750],
    [6749144444313944498, 9785160589746588309, 1879325468447606501, 488548565082231689],
    [9758081498979659183, 1940815519888266269, 12009827077897599276, 3199184500619154291],
    [4313954292140944327, 6337938223499325842, 14001639457938623868, 980658855986885140],
    [1254774432202001678, 7366652610728234568, 13137653367431173282, 1356604174807711621],
    [1131830178607158763, 8930073348078325178, 6768481974295129064, 3203729904715862736],
    [10795450777624282083, 10149465062271175212, 12220250787426708139, 1711388958423190300],
    [5947333646749427449, 14077078167873147090, 1961490608695017873, 243091462705180652],
    [17090660945772886824, 4386802863128691284, 16284307540573250014, 1471098790530615298],
    [2526464184132099228, 5536191702982527739, 4146325701066988222, 415161121734889968],
    [16762559351206104391, 9737509168102404870, 12299521222963705219, 1879332317621420111],
    [5713865985200543901, 18011972373648705409, 10601714443133346191, 613559848692235186],
    [17647142387750944341, 973217103321406870, 3347903763912882715, 502588052451121880],
    [8028382569875017110, 9941278702109384243, 9668313997298358083, 877860588048246637],
    [8951036314526950977, 10207142074437431397, 9667759907245414238, 2689090773583121770],
    [6034291944395944039, 1662366800182565829, 6304443631934031413, 2753603580934453733],
    [14673390317385099606, 882680550716395423, 17647140639306463946, 451327771666422012],
    [5352398058199805385, 1280192620747233458, 15124348437831055667, 1155266773716828532],
    [17542401173442348174, 1854225047864979659, 7501500490387499348, 1525481216928111982],
    [7361150585466038278, 3685501508700047586, 8245168898652841716, 952558456763062830],
    [3930977642975088237, 12531180890531477836, 15625840903974911657, 1104593726646691382],
    [29795898817710282, 14726164291672205181, 7724644629854769184, 3053760159430800020],
    [233896372914408711, 14621800039646521484, 914418426185668298, 3159011683421167527],
    [9293997367304164254, 12196548462367865752, 10844893352970623283, 1720782633931491726],
    [797613176224768817, 3778227876289478178, 12793182002212261368, 529644413896841967],
    [9402010003441624636, 9975916336444387768, 11727593088662733117, 2494785154613264543],
    [13947964581345483255, 10257284257798924554, 16779299441483343777, 950633178450889384],
    [9026904312038007612, 17770925641087684272, 8399489904040424533, 1840405544986393154],
    [3263731566493026276, 15831824293334247277, 10556016045473418736, 3009176442120279005],
    [15581579924863630797, 10899344780329465063, 15062203913151586440, 1434215102077344457],
    [3570074910373750889, 8598722002650029871, 12300181541584113034, 1760096181232604616],
    [2513497459780651116, 7602194649157242280, 1355834310024810481, 2613827313052417849],
    [12644386194757921730, 12481823176725423029, 7870940861726967056, 344806002947215296],
    [11901705839290034335, 17098477270788935559, 5487217020515493642, 1678196656117840508],
    [15306147419241747759, 8005000281983361055, 7122409444492145999, 1699202928893946264],
    [18284161254104877585, 6554543150615837174, 9010004779786250890, 169806595051974758],
    [13709778161912677703, 995921485038670642, 16140063959756772447, 1273946806655144923],
    [6065795976968944027, 10108897802538462031, 226113317467636916, 124175235243294379],
    [5195648543567131322, 11512015804825565687, 13803568250883583691, 2887238093090637222],
    [8307592909239091385, 4514146643090578845, 14555252884897661357, 2625995289823079980],
    [3134673678122293736, 3943184885205999707, 10259148142290333209, 2524687003595703335],
    [2126145026545739337, 11625521594878198079, 11057808876283882152, 3220038546582807443],
    [13991095838555463297, 8666147667684060556, 3223338398511650830, 1898302599327434350],
    [7339834818426071623, 776066998769892302, 13288832677900637854, 304466972211562357],
    [5764773712186860723, 2278671978783757933, 12215743153630658909, 401408454703175575],
    [17245063187400256722, 13334240170931002236, 8787596042026346681, 1676816636676916736],
    [16376425124124524231, 12218107920773310428, 16803357670374555217, 160470187108236422],
    [1362511929136114584, 10518953020858757343, 15320097113120830217, 1420815123325489552],
    [12940362287228009981, 2784781548077058233, 18084586523595027458, 275692946050918581],
    [16405510872871279086, 4138549827650703559, 3837922452437793617, 428894178133184888],
    [5967608796398183935, 13785947725668591461, 17029492918399004591, 825660181816180673],
    [3835528340003423895, 6348307284932017743, 15146335361462925861, 666903846652490202],
    [10807380458931490356, 3316495385649559491, 6698454391227611459, 3297417717695390769],
    [3421208268009036381, 6767125744524390352, 10381396097290255677, 1250411632748596265],
    [11686696973148621730, 16125902197189615468, 10357810438278176573, 2217892262007794966],
    [15915491935072794246, 9760318699320649794, 3482737465099759929, 2647067700109662139],
    [16713946579656841819, 15339157545098853759, 2094040929397935953, 2849137172544834398],
    [9625247182414167220, 15454659827346330217, 8956766636563239412, 1222099134814947447],
    [10749401471577683315, 6699960339534189663, 4680689955651034921, 3272238022514787416],
    [18045064355288300830, 5827023049133985555, 3601533314146712242, 1734225774533424310],
    [4366414653241656722, 3071169164214914625, 6491493923703173028, 290254454254352669],
    [9488849672055048722, 1570087533790919032, 15567768240012231362, 2214400865839566279],
    [15713703439159509262, 17885508724271639071, 4060476064803788774, 893966925682226087],
    [12383700684734133678, 10439629737658261939, 6609774993163136087, 616793703382935623],
    [4518219635862837428, 5869312378156237684, 16753267872093563750, 1379758348230466730],
    [1318187420588364782, 5693189194239068855, 917588267771987441, 3404338285229038487],
    [6149482228527046448, 4927711946122921449, 17613007972720009770, 384324082551410648],
    [5082598304491245589, 8349223473330979167, 4941138886458250395, 631241282633367298],
    [10147774887223549347, 17038666762852479067, 5206549184688619151, 2389833917225904530],
    [3880760234007074556, 12291097113638003843, 9149678103108664082, 2370628138526580464],
    [9483034294588700435, 6798119550763099444, 11937451593777751533, 290605144135076625],
    [13315384419380488611, 2208257409710099306, 14957084556185235958, 455503269172907763],
    [8459174394033994324, 16580571837143081743, 15888180979491627416, 823062637595070048],
    [4986941731615899799, 8989690789788375363, 16321499967657974737, 160502489211003981],
    [18161999587139939295, 4472861309500451573, 4170824958441250665, 1968588758029311200],
    [2587937920049035309, 2627213531625646192, 7074003121220665680, 781985365336109224],
    [15238059403193275340, 7686297150943704394, 5160305194302628585, 590642297123509018],
    [8245235260970184645, 15393134154106322432, 1173420661056770824, 134400955885218443],
    [858894361248765790, 13496399131071137706, 17306445682140744787, 2508397986981611829],
    [16818748537427140955, 7795293337936182687, 13124916705997258528, 1721418907934710545],
    [12360239975038749139, 7287083212552188517, 3151902841582312344, 1922224217546669146],
    [16431737432987460563, 7377644638041249878, 15042756679667235830, 2942518436852290837],
    [17292980646579529862, 15835141990772466591, 17127475495438050628, 1541934819841023726],
    [9085663710694859750, 12930684609165419178, 13433976493798361408, 2260401565634181645],
    [16977492159480669736, 14216021080655771310, 17644458808672983698, 269153931480704434],
    [301060693199762953, 16610516720421311533, 3933245461425294037, 1195877368785174878],
    [6850857092677304200, 5100140339634766230, 14912414166392280362, 1414490470732292799],
    [3231631824555512709, 5807638494804805312, 12253574084995371486, 1094499266579781027],
    [15968280956891188121, 1177227335905359919, 9827114595379925538, 2193829524129651351],
    [1244198286588513631, 12105395464569471667, 13643552284916514876, 1398792079936038365],
    [3791881730067842534, 16816713748151262930, 17209969806815528026, 2576328215397640191],
    [4492443431015281173, 9601356847686470323, 3847591642936110166, 913646012658022116],
    [7861471545670177825, 16727137607458230608, 13900196493856636774, 2107632733221644105],
    [8931010470622561775, 18088438397982172419, 9771261554776443916, 1127236188506184881],
    [8913041265853538915, 10998897075582127874, 11200183766644108552, 576958075329649503],
    [16544004893353283158, 16033681610458377245, 14973771236909729052, 1419293352152092428],
    [3164149492949341808, 7459948903608818624, 2308221762359015534, 904815267888838673],
    [13887051535988033295, 9730760954750749563, 17546162519828345678, 1609863885025601267],
    [3139754104767937728, 15260228701663768742, 16405616457294736448, 298718984456526424],
    [9555843542630445061, 14073564862361598364, 17325209054356040390, 1191273809817501885],
    [12855470874024983568, 10955224784259330979, 4595291271332478669, 2610585472283938487],
    [5263065232163439487, 13671454642552424223, 11758929308283912909, 961181311155525401],
    [17062312177556448516, 15469293304727765349, 8940415241151305512, 126021206832997590],
    [17571795471803287475, 17854263945619409940, 6124514303325574192, 588625763911509119],
    [9492804046002764408, 8865636310439463602, 2154413629961118507, 2131028405965318809],
    [6396699993216622977, 14565830957031612855, 554885605320575997, 2199371564937574858],
    [14700229086249581108, 17121875672110611119, 958437380916082489, 2730042762171422878],
    [16403189776115141763, 7350155719768786629, 9857863719783801499, 1291985343138389724],
    [11832390632332173760, 1274682255747570147, 8368335574892992594, 1798003280523034450],
    [14438960778245459579, 10294311554749836072, 10456071965287742750, 411712249807274034],
    [10015411793162767, 13571273353855627581, 2474753816534563395, 66280418425167661],
    [4967003702739486861, 12929026064975396078, 8147206878033891329, 2131950236517733281],
    [13337660629747298643, 11518871815628743157, 17902785659068543758, 2937562213392376645],
    [4496422047429941016, 16536333507420485509, 16510810727247797221, 2843551515327668151],
    [12774800512624688783, 18254417481987535740, 6225151683234826306, 2380838516665502846],
    [16785158967790606778, 15585091035138680282, 17737639533503469225, 919239350270210464],
    [3589465416959767005, 3181518846821550418, 7092199302903254521, 1428169722991539233],
    [792843591933390345, 10190207576941044055, 1291871669712865549, 2029815925199607830],
    [9787117065946087989, 523774943087130150, 10135811090706921781, 2733052880178015894],
    [2211215205335271840, 11792968764994350466, 15774880758241021272, 2525550148973439801],
    [18427817609464187679, 634043006553941619, 16683504454596984714, 2970065902553312331],
    [1858024903776146149, 16332625616108642760, 16617786771099703293, 2928373743173441964],
    [236973080191463542, 5117087538089955192, 7744944215246778931, 3309077133648012450],
    [2581759119736898533, 2286912547850280607, 1213213783544578237, 1045901599234321218],
    [16711890796712524145, 10534553120698211144, 6629033735730241832, 1238404210871602808],
    [1424066390557296514, 9351412306612725643, 9233729290171482485, 2281744046701649884],
    [6657585293531122833, 16887183035399176260, 14713874495123719686, 352356552328040183],
    [7226141694718873697, 3503596840569495308, 11977297777409357214, 1905235953471047135],
    [2530010666814439402, 15399645096794058133, 11901833896615688240, 2490315627091147496],
    [5724085554844549226, 14942435620471384669, 14162551832813463017, 1030722130991350682],
    [6523923131913195169, 17750316011862085947, 13167896888550759565, 2273850717721282809],
    [18085670245289995384, 5981052287905167729, 7807190490846044352, 261634431948800829],
    [6791382560563561094, 4300230946592486731, 5299854039501768894, 1980925780523239591],
    [4194872785796735413, 10200456224281805297, 11631882033427428775, 2908720369079141217],
    [16294559096411830790, 18394159096672374948, 10709208664417253127, 502523914340060440],
    [5328534775898090463, 4365678734103553387, 12066163986866884323, 3416054921086068574],
    [6140518695738857472, 5254561827198791, 12050921947098615952, 2012631424859555334],
    [5533634766505898386, 15268109978370908901, 12350459032332085285, 904244685714581777],
    [17690106528231722325, 12350287352526507397, 10046353697385574797, 1270011173154062572],
    [7861403368833220358, 2688314612843743345, 5267003719208145414, 3462439659386247163],
    [3200526845397631361, 9985747725396122381, 9717310998344545044, 356950687796531296],
    [12809402549012389461, 1652987080556345278, 8072265568900186636, 3093586483851219555],
    [15184789447056930548, 16922815592536876478, 7519819724880648558, 2813237587980475871],
    [4855869600410882431, 1729220705783707986, 3602369249993956848, 839063916053725278],
    [12106231242025895960, 9496996657201838340, 1209887424066194629, 1772951459795933469],
    [8356327095591578357, 15534712489614512687, 8022844178366588162, 776802781933629003],
    [5485850753988267262, 16496494301044695092, 8493739532011402449, 3374465768183463050],
    [7856181044708584424, 9700952833207197069, 15914451590184810530, 1103009924051169393],
    [17094860767449258611, 5967470290324335152, 4605903571493621745, 3404409775978820540],
    [1624026608910039872, 7750341024231366273, 6338129154427586339, 749406011339493532],
    [2386080875104160292, 11686270882885873989, 13792550688697868005, 3080334182295239112],
    [6406326517503005300, 15589037810098638873, 12658156768292737766, 2165750189594116382],
    [14426577535744037903, 2572813630037205041, 723258479810517335, 1436212832958598226],
    [2484416902942793233, 9141062233777929382, 17250691984177691868, 671021785830729817],
    [10611613326592273607, 15761331748017599250, 3432092572837428371, 175602179900323593],
    [8220556447368343526, 353688921389876194, 43015510194956119, 435917791372576377],
    [10459669841367791581, 482351028684350014, 14211059011304573971, 770391018924673028],
    [17838339341475069203, 5246586671549137074, 4071131229229408364, 1431338628347718115],
    [11936156971883568449, 17880599749201623088, 9138910626311297600, 2649852650117516327],
    [13224154851765259360, 8925993164798166901, 11687837516533180358, 3027083572307234502],
    [6610819489118752276, 9240987235351839098, 476260377206049801, 242103597631805112],
    [10252646625578405144, 2930121187702538791, 4208375883291832922, 3398358469182706610],
    [43277972444457383, 13144256214382940417, 8483702904184032240, 1419034365786736396],
    [9313153972922545583, 13154811792266174963, 5750768893837328556, 3259638610074916169],
    [15820234318773595949, 3499986905487470096, 2372019017205449676, 930527630404029069],
    [14608307430609425361, 2580050218027733557, 471677735117592515, 982932318666925357],
    [4568041038211031662, 6472560526318270936, 17924833723716032697, 1772076405687783321],
    [6716439790040003280, 5477852616018277051, 9535137907174693494, 941654736185201206],
    [2857048480651559700, 14718652218109037255, 13156902157280099543, 2441612160628921877],
    [9440149837383681320, 5772300028444126882, 5256721269105905056, 1890858011626184794],
    [15858461261087961478, 12688594939359744472, 2226778439033777362, 1854707865183359637],
    [6519566888014766977, 15839105993774727416, 7455978607479708753, 2769428184013000781],
    [553995615949359978, 34516275743084622, 13753401765896647901, 2057459863758719988],
    [9435625824954296067, 16281465183953627104, 8836007580412863264, 192536395124650116],
    [15832616321610057167, 18304434228925853716, 4074503474959614693, 370125067461815591],
    [9655474409217401755, 11454273124668638809, 7044868035009346736, 2792078138607032148],
    [5111236330774276180, 11651680435746149320, 7011556983259658004, 2554966022470698732],
    [13352291827564687964, 5542277053187195543, 4471754786543804224, 861420169061643239],
    [11406199665149309380, 12786781073697224224, 2816714525010392388, 1051651462171542110],
    [16575106312229758736, 16702542211614148575, 15609239303750733985, 3430702322880746385],
    [7872011711441183290, 13198315866315858557, 12428096698614659472, 1814704410559075771],
    [5386810689378881830, 14654812190273269024, 1204544122331647415, 3168449787190488271],
    [414890550692069802, 17934366980147885202, 4950196648246504805, 849528593135707250],
    [7718353054770075128, 2769586506503270904, 8188833947472912282, 1443277575519422004],
    [14231389472075669521, 13681935716550290007, 7601287883746249866, 844601190483204321],
    [12565757863191359541, 17863828447305014442, 12381180903657521899, 2401088348931099040],
    [1193481223463011572, 16554071441371717014, 13796624700709758661, 69423454908574640],
    [5529736827233948214, 10410163053750326458, 16473017440268274649, 1155498012157392565],
    [15632284688633099764, 13634348556713921367, 11633886303856520010, 185643262244895785],
    [5035608847148348278, 1148545569616164677, 17672800618367393165, 3129193491737651478],
    [6330847598454465880, 2175341281332687567, 9490427535641127046, 2954559437294248191],
    [11035228939284832681, 11185032724295782230, 5466599982080382507, 1202421519815125430],
    [17134550818278575889, 1351460758523642115, 9204584147576419372, 3467438932286906593],
    [15000899053407633169, 16216276340133079728, 9693593846109942755, 2878225888338748825],
    [18148259790260495535, 4232209895649877582, 13737256298452488389, 886913770179856080],
    [3659817986158853415, 9560928932457067721, 18394243184336822372, 839265550313943611],
    [198809382986218176, 14450699104753899839, 14259151757144777881, 2433477330851911713],
    [11688267864062546289, 999323363213911081, 3634265290466826827, 347283254098822937],
    [3966122317031957967, 15600221649883636337, 5694726266013936141, 736232425179171452],
    [12218474764790109984, 13170994874741514492, 11835571911343543018, 2943928627523501867],
    [3337789251576096195, 3868839389349750752, 3171746921480639053, 2956305950926458959],
    [16083510608721574339, 10112026006332743988, 437654723010739094, 2740221243229161211],
    [17472550580532261431, 16799762800794665246, 10885991536524748432, 428255031141002379],
    [6568965696853760351, 13201565397814414271, 1814540409348745279, 2774516609224927340],
    [17530585830387503439, 916204777207536021, 7732868842491311460, 1359794541569356969],
    [10787250641789512123, 14871478997295382366, 1282538341839468228, 476071658461960522],
    [16686155460527965670, 9164024136021102070, 3032803498653118835, 989408937714913983],
    [15122202099219368440, 14098605669423457820, 14553545271226022172, 2917110222202371468],
    [9556586293774058729, 10871332832168046595, 2534095535088102793, 2199878809543998654],
    [17518027714610307825, 15469751761530463030, 3305989967268191240, 2057334630698022388],
    [7633982607299203980, 15050702243666650439, 9463994334625432323, 526668713469946184],
    [7528724032885478525, 12025039087679427087, 2251193292572086651, 2839208781612238603],
    [12618048613930882356, 12469631131594947200, 12602743353793248318, 2333818243843599595],
    [6517237512116726598, 17932042201814401534, 13970371314062726769, 1291855083676629434],
    [17459262941707224129, 17237358355268609366, 17574451529017688290, 1733887369466075224],
    [3468419270119395092, 1330616894996475780, 16293712814498264300, 3079513874781644066],
    [5746155178945555597, 11128436544923939607, 11193686843306408890, 1612942057074874411],
    [10720153138662703287, 16778209923248186717, 11972684438010750840, 2005173977522260666],
    [3349629964980670008, 9465501307476492932, 18267568654226717961, 598550940107520998],
    [12474990672933971015, 3310315539019440485, 9742048565560836107, 73665423015346840],
    [15358199983673954033, 11567163078890245291, 8839578862248605690, 305915156703588182],
    [7609892942813727355, 3444827687748185247, 18242744584373580253, 2617096584901173139],
    [7814133197534754497, 7996512720536215716, 5281929621123755413, 1797917437918113692],
    [10930085620359727488, 8950976772441161991, 15673021599879353806, 2015445965687179468],
    [2277240803613110682, 13873429301893559454, 11715246777694232325, 862914669617225528],
    [7669810420114757770, 14046464352004680918, 10123192002806337880, 1869553641093049032],
    [3566573202380746404, 16378317869737513492, 12547204807840998301, 1943820262246823848],
    [9038254975816647742, 14819104709943325938, 8536777439066451472, 1961930103575508539],
];

const M_T10: [[u64; 4]; 100] = [
    [6272925521698787480, 15434569038537626331, 10152136084411682209, 801211369788478904],
    [8838887931598016039, 11521956688518703801, 9395158794966823885, 3450929237201577499],
    [4779945039114057360, 17050124148077879594, 3703597303049799647, 3347591138979887368],
    [9060001057653629311, 2997457277061682864, 17852291491524599869, 2532001030492329855],
    [11753692653892119173, 2089912240986142533, 18249319035043909043, 1570890428086326095],
    [11994623227217008338, 6896749388650020970, 5809211150082421293, 1661875347580273637],
    [8895094120931891218, 13756153853691787321, 2054163674706036841, 742753828085767841],
    [8321040834225536143, 1482310456055911746, 9949879493710234487, 1063274019261635652],
    [7332004413885899797, 9565965838819778397, 1404761796488991239, 2691544243528191389],
    [8247912798193446702, 101378222438319897, 5929315797652723102, 1301334026556125507],
    [1033516247935415686, 16524057513051858678, 5829174925046121885, 1926297878359327648],
    [18371200659931502883, 11388633542258069809, 8191221308388242009, 746296045302696192],
    [11640948487260055294, 259764780737598140, 3147069759456124769, 2659426112521196409],
    [12602162178986087809, 10256022312406798360, 4719228219308913159, 1216874181553266962],
    [10747585743231634592, 1065759342890615869, 10707591292389803399, 1610844724376615425],
    [519446674312890819, 15446339007699743534, 16708604472316444258, 142849794341006836],
    [9419355631780903674, 6356684710114689548, 12320415023284985105, 2009309326310969347],
    [15573000482228635497, 3199467581206820091, 6170464057539056058, 294994700144907651],
    [11473960196913325846, 5911443361531773233, 14338972508960004490, 2251399018923899528],
    [16578147555902749756, 14514841960325818597, 3222244167111953068, 77662253471174307],
    [13774306726997599274, 565332894485838757, 3466577631885736069, 1228674808538233002],
    [12003134843014193730, 2930281062576332948, 6097609538963548598, 3233268724406746329],
    [3025129870387114220, 7947043895419959375, 6303709444100230696, 60252161404394824],
    [17292077337766632518, 9930477971733556871, 7092268231346501283, 2407416933152994970],
    [13779467219391364335, 18344384755607751867, 1654961987437469146, 239550432499672028],
    [4568628600342515133, 4794410159729085049, 13909813128856495148, 2084540820157327169],
    [11384992419464627158, 9262937348738058803, 7780723302208314473, 2782252685629284833],
    [10707148934678917318, 16056947203409705329, 15165749896984647376, 1056019699361259577],
    [7954555273557982021, 13809182640791918584, 12473466083922125789, 2414133819598615356],
    [2341303142736968695, 16364318733816143001, 2181348783459125415, 1787107103824599763],
    [12535608550931105160, 13793702140028972618, 7542967763859260114, 1796288437204767671],
    [5119260810582421269, 4558213581501808735, 9414274574786515073, 3212805400489987130],
    [15123348035696104261, 11387908014933047593, 10208787226656503056, 2254437073950020760],
    [7765118748213309343, 13560499551928174133, 6194156176606787919, 2749733391490289088],
    [16484014216992635554, 13333130084936448993, 4907475083574590375, 1981181600508216294],
    [8415791220040581647, 13935190500482515524, 16570129284804493915, 1911969562431240754],
    [5331266033934317949, 15861999694005546165, 8154613857034542536, 2540161204167143678],
    [12260474737004632663, 16189198091110821595, 4406977474611337218, 1345223365947101634],
    [14618771982584000030, 4511141125390838372, 4077180571104887997, 2073517916844623736],
    [4944956475703829933, 15419243350646164488, 5983967132413473506, 2580838110221962748],
    [17639676468645473319, 888693410042224555, 14177576109517589658, 2185346627827744462],
    [10607355115540624468, 15774427791184772893, 13149331261545044480, 3154596821303160759],
    [6543863809062994531, 13732333187846480653, 9952271210104001802, 1315950358235830656],
    [5954909155541952390, 16102404983695120323, 9897837726895240517, 19853293672108833],
    [10863821035493121331, 1871197509128646774, 4173388152322705691, 2626830779975508358],
    [17561286655688524601, 17800398173999086601, 13425280108638453231, 2761852970889205258],
    [11810076715844233486, 13946497197096041702, 4818928063215157415, 192818041124382789],
    [13600152882828592882, 3100787321998877309, 13958442074939568224, 945250254364857967],
    [3611725845111605616, 8137492958489745362, 4041472523250775420, 816929964837233422],
    [5716819708311147616, 3035955680349782149, 15503885738525137040, 3361571168933697381],
    [4558970207800659510, 15993193242186600419, 526468997608638413, 1224055611437574647],
    [498660970270635048, 14430880431421000632, 9917135655581012924, 3334085529816218776],
    [11992110873255512505, 15941967633762947605, 9885627033058253738, 3405319243587616211],
    [3889367010600291667, 1733092886180089053, 5713798896780769445, 1380177921653681437],
    [811247083455867042, 8940613026096036282, 10321220332032078240, 1462926486851077567],
    [2065976595929808747, 6564265560069087493, 10009703696548222366, 1326621636940721604],
    [1604590050622970084, 7558241162584225359, 11213827884792987238, 394246795101350288],
    [2030575369586631870, 7050103533348723434, 4646538798586690506, 1361125340590821230],
    [8111655984621691951, 2391420669143636106, 7449131261115475744, 1252745541779700555],
    [12238636937339192587, 10063926441592117082, 7011731630867042963, 230823416734505605],
    [13605372029581974424, 14499090432198117563, 3838112490161158096, 3106793326832331865],
    [18212322872656611853, 5658479006109341116, 3755847017970885545, 2720447388881729374],
    [13517669622348007518, 14342851297718450885, 4416932281229105975, 379343315880096473],
    [10856381515450970214, 6871366753546401071, 12695681108182803011, 3301445434575743148],
    [6493570072567596789, 468716296047898565, 3291775223530899627, 2781824561212686099],
    [17951783765070101648, 787097698163824860, 17074860153427546571, 2365586196433283191],
    [9981676994633596653, 18420723120411946009, 6897046263162816563, 3378502521721513731],
    [4557630297673418983, 16607522508087199040, 5168374507508251591, 494703244129490024],
    [11471583109499573842, 10688825685889139319, 10669244300181267114, 1396387571285979829],
    [13906906598902072872, 7906495638633317657, 533659054527014908, 1585129071590507177],
    [2734208781506096631, 6679726827865885825, 6885249432451213766, 1870247168557016941],
    [4261906686250341558, 18217348172049853332, 9876866800129954696, 864251051311246875],
    [2361576234042156559, 8338407785888410177, 1512784787385852567, 2323187694649890921],
    [5366563045341593124, 11250129638986661671, 5203005962418926028, 1986415911247432109],
    [14239816425716805658, 9615690093945014723, 9678147020313371736, 444917640559041385],
    [8221740887820546911, 6560541252738176090, 13326826323666965287, 1408504781754472508],
    [11924879267030565349, 12501102868796553984, 3438152000219859348, 1249917508356707113],
    [9616607317439755647, 14993306982954323569, 5864753244935338021, 1709673295134358908],
    [17128019135641325823, 4974677594578461538, 9973440025986223386, 891779813493727450],
    [10699840941518754119, 15434571860541369675, 5210718876410493439, 420364239778944658],
    [17840816547742862593, 9136537853115858247, 16004631864106780289, 1139193335759254418],
    [3591923788557647258, 5643145322169059292, 9114012152402632856, 871497395380667565],
    [2787307423441729706, 14502528079983083116, 7237062310328461719, 169481796829284671],
    [14372621672614784799, 7537909270096094049, 10295271978907244424, 2311296528427679600],
    [3954968700651345390, 16989504925197258067, 9007310064622590084, 2369281494869445167],
    [10090234748750667818, 1040413653919394397, 13443906812789652403, 1517133711550087395],
    [1778238098979188820, 5445356098900644849, 3246644265667548957, 1681848350219474720],
    [6920335689745114700, 1492719641696554617, 8037576327871765753, 792375583169338367],
    [16463727122929319271, 1225906627841726702, 6788682643777896468, 1914469376100771396],
    [1718981074463554572, 611396712845732785, 14402002591497214333, 3338882841713746700],
    [1850853417574402082, 13399939877898838634, 10841193241000738325, 2571604869515719816],
    [17431396625558030186, 2467225601615303522, 8616322008584043557, 3455616304831693414],
    [426124312020486855, 17185729430408511630, 17210746215785456637, 2128372353103547996],
    [4508876780039186319, 2269617129010043605, 17486120874545287107, 839592365774701267],
    [17576002845669035015, 8234311209310641466, 10698037333171095413, 418435337306901288],
    [9493757741432966245, 13213096263531373290, 327682181542512598, 879445493962259641],
    [14676882960401942516, 4626147780757862085, 1181108528433793705, 3440623426333506352],
    [4824513410436531322, 10705259804359619317, 15125633568624993168, 938523825037835281],
    [8303688589961191914, 12164504190673927410, 17567468780317093831, 191559167249577573],
    [11431490657029837894, 6056100482032374753, 982000750707275487, 1580398295318777601],
];

/// The shipped additive-constant data of width 10.
pub closed spec fn c10_data() -> Seq<[u64; 4]> {
    C_T10@
}

/// The shipped mixing-matrix data of width 10, row-major.
pub closed spec fn m10_data() -> Seq<[u64; 4]> {
    M_T10@
}

/// The additive round constants of width 10, pinned to the shipped data.
pub fn c_t10() -> (v: Vec<[u64; 4]>)
    ensures
        v@ == c10_data(),
        v@.len() == 680,
{
    slice_to_vec(C_T10.as_slice())
}

/// The mixing matrix of width 10, pinned to the shipped data.
pub fn m_t10() -> (v: Vec<[u64; 4]>)
    ensures
        v@ == m10_data(),
        v@.len() == 100,
{
    slice_to_vec(M_T10.as_slice())
}

} // verus!
